//! Frames of the wire protocol: a ten-byte header, a payload and, where the
//! payload is encrypted, an authentication tag.
//!
//! The header holds two letters, the command, the sequence number, the MODBUS
//! checksum of the payload and the length of header and payload together. The
//! tag counts neither for the checksum nor for the length.

use crate::bytes::{be_bytes, from_be, law_be_reads_all_bytes, push_all, push_be, read_be};
use crate::crypto::{
    aes128_gcm_open, aes128_gcm_seal, bytes_view, decrypt, encrypt,
    law_payload_is_opened_for_its_message, law_payload_is_sealed_for_its_message, opened,
    other_tags_fail, sealed, sha256, CryptoError, GCM_TAG_LENGTH,
};
use crate::error::InverterError;
use vstd::prelude::*;
use vstd::slice::{slice_subrange, slice_to_vec};

verus! {

/// Length of a frame header.
pub const FRAME_HEADER_LENGTH: usize = 10;

/// The longest header and payload that the length field can declare.
pub const MAX_FRAME_LENGTH: usize = 65535;

/// One step of the checksum: shift by one bit, and fold the polynomial in where
/// a one was shifted out.
pub open spec fn crc_shifted(crc: u16) -> u16 {
    if crc & 1 == 1 {
        (crc >> 1) ^ 0xa001
    } else {
        crc >> 1
    }
}

/// The checksum after one more byte: eight steps with the byte folded in.
pub open spec fn crc_extended(crc: u16, byte: u8) -> u16 {
    crc_shifted(
        crc_shifted(
            crc_shifted(
                crc_shifted(
                    crc_shifted(crc_shifted(crc_shifted(crc_shifted(crc ^ (byte as u16))))),
                ),
            ),
        ),
    )
}

/// The MODBUS checksum, byte by byte from a register of ones.
pub open spec fn modbus_crc(data: Seq<u8>) -> u16
    decreases data.len(),
{
    if data.len() == 0 {
        0xffff
    } else {
        crc_extended(modbus_crc(data.drop_last()), data.last())
    }
}

/// Calls `crc16::State::<crc16::MODBUS>::calculate`. Claimed: the result is the
/// MODBUS checksum, with the polynomial 0x8005 in reflected order, a register
/// of ones at the start and nothing folded in at the end.
#[verifier::external_body]
fn checksum(data: &[u8]) -> (crc: u16)
    ensures
        crc == modbus_crc(data@),
{
    crc16::State::<crc16::MODBUS>::calculate(data)
}

/// A step of the checksum loses nothing.
proof fn lemma_crc_shifted_injective(a: u16, b: u16)
    requires
        crc_shifted(a) == crc_shifted(b),
    ensures
        a == b,
{
    assert(a == b) by (bit_vector)
        requires
            (if a & 1 == 1 {
                (a >> 1) ^ 0xa001
            } else {
                a >> 1
            }) == (if b & 1 == 1 {
                (b >> 1) ^ 0xa001
            } else {
                b >> 1
            }),
    ;
}

/// Equal checksums after one more byte come from equal registers with the byte
/// folded in.
proof fn lemma_crc_extended_injective(c: u16, x: u8, d: u16, y: u8)
    requires
        crc_extended(c, x) == crc_extended(d, y),
    ensures
        c ^ (x as u16) == d ^ (y as u16),
{
    let a0 = c ^ (x as u16);
    let a1 = crc_shifted(a0);
    let a2 = crc_shifted(a1);
    let a3 = crc_shifted(a2);
    let a4 = crc_shifted(a3);
    let a5 = crc_shifted(a4);
    let a6 = crc_shifted(a5);
    let a7 = crc_shifted(a6);
    let b0 = d ^ (y as u16);
    let b1 = crc_shifted(b0);
    let b2 = crc_shifted(b1);
    let b3 = crc_shifted(b2);
    let b4 = crc_shifted(b3);
    let b5 = crc_shifted(b4);
    let b6 = crc_shifted(b5);
    let b7 = crc_shifted(b6);
    lemma_crc_shifted_injective(a7, b7);
    lemma_crc_shifted_injective(a6, b6);
    lemma_crc_shifted_injective(a5, b5);
    lemma_crc_shifted_injective(a4, b4);
    lemma_crc_shifted_injective(a3, b3);
    lemma_crc_shifted_injective(a2, b2);
    lemma_crc_shifted_injective(a1, b1);
    lemma_crc_shifted_injective(a0, b0);
}

/// The checksum notices every change of a single byte.
pub proof fn law_changed_byte_changes_checksum(data: Seq<u8>, i: int, byte: u8)
    requires
        0 <= i < data.len(),
        byte != data[i],
    ensures
        modbus_crc(data.update(i, byte)) != modbus_crc(data),
    decreases data.len(),
{
    let changed = data.update(i, byte);
    let c = modbus_crc(changed.drop_last());
    let d = modbus_crc(data.drop_last());
    let x = changed.last();
    let y = data.last();
    if modbus_crc(changed) == modbus_crc(data) {
        lemma_crc_extended_injective(c, x, d, y);
        if i == data.len() - 1 {
            assert(changed.drop_last() == data.drop_last());
            assert(x == y) by (bit_vector)
                requires
                    c ^ (x as u16) == d ^ (y as u16),
                    c == d,
            ;
        } else {
            assert(changed.drop_last() == data.drop_last().update(i, byte));
            law_changed_byte_changes_checksum(data.drop_last(), i, byte);
            assert(c == d) by (bit_vector)
                requires
                    c ^ (x as u16) == d ^ (y as u16),
                    x == y,
            ;
        }
    }
}

/// The contents of a frame header that passed all checks.
#[derive(Clone, Copy, Debug, PartialEq, Eq, Structural)]
pub struct Header {
    pub command: u16,
    pub sequence: u16,
    pub crc: u16,
    pub payload_length: usize,
}

/// The ten bytes of a header.
pub open spec fn header_bytes(command: u16, sequence: u16, crc: u16, length: u16) -> Seq<u8> {
    seq![0x48u8, 0x4du8] + be_bytes(command) + be_bytes(sequence) + be_bytes(crc) + be_bytes(length)
}

/// The frame around a payload as it goes over the wire; `tag` is empty where
/// the payload is not encrypted.
pub open spec fn frame_bytes(command: u16, sequence: u16, body: Seq<u8>, tag: Seq<u8>) -> Seq<u8> {
    header_bytes(command, sequence, modbus_crc(body), (body.len() + FRAME_HEADER_LENGTH) as u16)
        + body + tag
}

/// The frame of a request, or why there is none.
pub open spec fn framed(
    command: u16,
    sequence: u16,
    payload: Seq<u8>,
    encrypted: bool,
    enc_rand: Option<Seq<u8>>,
) -> Result<Seq<u8>, InverterError> {
    let length = payload.len() + FRAME_HEADER_LENGTH;
    if encrypted {
        match enc_rand {
            None => Err(InverterError::RequestWithoutEncRand),
            Some(rand) => match sealed(rand, command, sequence, payload) {
                Err(e) => Err(InverterError::Crypto(e)),
                Ok(c) => if length > MAX_FRAME_LENGTH {
                    Err(InverterError::RequestTooLarge { length: length as usize })
                } else {
                    Ok(
                        frame_bytes(
                            command,
                            sequence,
                            c.take(payload.len() as int),
                            c.skip(payload.len() as int),
                        ),
                    )
                },
            },
        }
    } else if length > usize::MAX {
        Err(InverterError::RequestLengthOverflow)
    } else if length > MAX_FRAME_LENGTH {
        Err(InverterError::RequestTooLarge { length: length as usize })
    } else {
        Ok(frame_bytes(command, sequence, payload, Seq::empty()))
    }
}

/// What a header says, or the first check that it fails.
pub open spec fn parsed_header(
    header: Seq<u8>,
    expected_sequence: u16,
    expected_commands: Seq<u16>,
) -> Result<Header, InverterError> {
    let command = from_be(header[2], header[3]);
    let sequence = from_be(header[4], header[5]);
    let length = from_be(header[8], header[9]);
    if header[0] != 0x48 || header[1] != 0x4d {
        Err(InverterError::InvalidMagic)
    } else if !expected_commands.contains(command) {
        Err(InverterError::UnexpectedCommand { command })
    } else if sequence != expected_sequence {
        Err(InverterError::UnexpectedSequence { sequence, expected: expected_sequence })
    } else if length < FRAME_HEADER_LENGTH {
        Err(InverterError::InvalidFrameLength { length: length as usize })
    } else {
        Ok(
            Header {
                command,
                sequence,
                crc: from_be(header[6], header[7]),
                payload_length: (length - FRAME_HEADER_LENGTH) as usize,
            },
        )
    }
}

/// The payload behind a header, once the checksum and the tag have been checked.
pub open spec fn unwrapped(
    header: Header,
    body: Seq<u8>,
    tag: Seq<u8>,
    encrypted: bool,
    enc_rand: Option<Seq<u8>>,
) -> Result<Seq<u8>, InverterError> {
    if modbus_crc(body) != header.crc {
        Err(InverterError::CrcMismatch { calculated: modbus_crc(body), received: header.crc })
    } else if !encrypted {
        Ok(body)
    } else {
        match enc_rand {
            None => Err(InverterError::ResponseWithoutEncRand),
            Some(rand) => match opened(rand, header.command, header.sequence, body + tag) {
                Err(e) => Err(InverterError::Crypto(e)),
                Ok(payload) => Ok(payload),
            },
        }
    }
}

/// Length of the tag behind a payload.
pub open spec fn tag_length(encrypted: bool) -> nat {
    if encrypted {
        GCM_TAG_LENGTH as nat
    } else {
        0
    }
}

/// The payload of the frame at the front of `stream`, or why it is refused.
/// The stream may end too early, and may go on behind the frame.
pub open spec fn read_frame(
    stream: Seq<u8>,
    expected_sequence: u16,
    encrypted: bool,
    enc_rand: Option<Seq<u8>>,
    expected_commands: Seq<u16>,
) -> Result<Seq<u8>, InverterError> {
    if stream.len() < FRAME_HEADER_LENGTH {
        Err(InverterError::HeaderUnread)
    } else {
        match parsed_header(
            stream.take(FRAME_HEADER_LENGTH as int),
            expected_sequence,
            expected_commands,
        ) {
            Err(e) => Err(e),
            Ok(header) => {
                let end = FRAME_HEADER_LENGTH + header.payload_length;
                if stream.len() < end {
                    Err(InverterError::PayloadUnread)
                } else if stream.len() < end + tag_length(encrypted) {
                    Err(InverterError::TagUnread)
                } else {
                    unwrapped(
                        header,
                        stream.subrange(FRAME_HEADER_LENGTH as int, end),
                        stream.subrange(end, end + tag_length(encrypted)),
                        encrypted,
                        enc_rand,
                    )
                }
            },
        }
    }
}

/// Whether `stream` starts with the frame that [`build_frame`] makes of a
/// payload.
pub open spec fn carries(
    stream: Seq<u8>,
    command: u16,
    sequence: u16,
    payload: Seq<u8>,
    encrypted: bool,
    enc_rand: Option<Seq<u8>>,
) -> bool {
    framed(command, sequence, payload, encrypted, enc_rand) matches Ok(frame)
        && frame.is_prefix_of(stream)
}

/// An optional byte slice by its contents.
pub open spec fn slice_view(bytes: Option<&[u8]>) -> Option<Seq<u8>> {
    match bytes {
        Some(b) => Some(b@),
        None => None,
    }
}

/// A header is ten bytes long, and reads back as what it was made of.
proof fn lemma_header_reads_back(
    command: u16,
    sequence: u16,
    crc: u16,
    length: u16,
    expected_commands: Seq<u16>,
)
    requires
        expected_commands.contains(command),
        length >= FRAME_HEADER_LENGTH,
    ensures
        header_bytes(command, sequence, crc, length).len() == FRAME_HEADER_LENGTH,
        parsed_header(header_bytes(command, sequence, crc, length), sequence, expected_commands)
            == Ok::<_, InverterError>(
            Header {
                command,
                sequence,
                crc,
                payload_length: (length - FRAME_HEADER_LENGTH) as usize,
            },
        ),
{
    crate::bytes::law_be_round_trip(command);
    crate::bytes::law_be_round_trip(sequence);
    crate::bytes::law_be_round_trip(crc);
    crate::bytes::law_be_round_trip(length);
    let h = header_bytes(command, sequence, crc, length);
    assert(h[2] == be_bytes(command)[0]);
    assert(h[3] == be_bytes(command)[1]);
    assert(h[4] == be_bytes(sequence)[0]);
    assert(h[5] == be_bytes(sequence)[1]);
    assert(h[6] == be_bytes(crc)[0]);
    assert(h[7] == be_bytes(crc)[1]);
    assert(h[8] == be_bytes(length)[0]);
    assert(h[9] == be_bytes(length)[1]);
}

/// A frame reads back as what was put into it, whatever follows it on the
/// stream: the header passes every check, and checksum, payload and tag come
/// out of the places they went to.
pub proof fn law_frame_reads_back(
    command: u16,
    sequence: u16,
    crc: u16,
    body: Seq<u8>,
    tag: Seq<u8>,
    rest: Seq<u8>,
    encrypted: bool,
    enc_rand: Option<Seq<u8>>,
    expected_commands: Seq<u16>,
)
    requires
        expected_commands.contains(command),
        body.len() + FRAME_HEADER_LENGTH <= MAX_FRAME_LENGTH,
        tag.len() == tag_length(encrypted),
    ensures
        read_frame(
            header_bytes(command, sequence, crc, (body.len() + FRAME_HEADER_LENGTH) as u16) + body
                + tag + rest,
            sequence,
            encrypted,
            enc_rand,
            expected_commands,
        ) == unwrapped(
            Header { command, sequence, crc, payload_length: body.len() as usize },
            body,
            tag,
            encrypted,
            enc_rand,
        ),
{
    let length = (body.len() + FRAME_HEADER_LENGTH) as u16;
    let header = header_bytes(command, sequence, crc, length);
    let stream = header + body + tag + rest;
    lemma_header_reads_back(command, sequence, crc, length, expected_commands);
    assert(stream.take(FRAME_HEADER_LENGTH as int) == header);
    let end = FRAME_HEADER_LENGTH + body.len();
    assert(stream.subrange(FRAME_HEADER_LENGTH as int, end) == body);
    assert(stream.subrange(end, end + tag_length(encrypted) as int) == tag);
}

/// A payload that was changed on the way, so that its checksum changed too, is
/// refused for its checksum, encrypted or not, before anything else is made of
/// it.
pub proof fn law_changed_payload_is_refused(
    command: u16,
    sequence: u16,
    body: Seq<u8>,
    changed: Seq<u8>,
    tag: Seq<u8>,
    rest: Seq<u8>,
    encrypted: bool,
    enc_rand: Option<Seq<u8>>,
    expected_commands: Seq<u16>,
)
    requires
        expected_commands.contains(command),
        body.len() + FRAME_HEADER_LENGTH <= MAX_FRAME_LENGTH,
        tag.len() == tag_length(encrypted),
        changed.len() == body.len(),
        modbus_crc(changed) != modbus_crc(body),
    ensures
        read_frame(
            frame_bytes(command, sequence, body, tag).take(FRAME_HEADER_LENGTH as int) + changed
                + tag + rest,
            sequence,
            encrypted,
            enc_rand,
            expected_commands,
        ) == Err::<Seq<u8>, _>(
            InverterError::CrcMismatch {
                calculated: modbus_crc(changed),
                received: modbus_crc(body),
            },
        ),
{
    let header = header_bytes(
        command,
        sequence,
        modbus_crc(body),
        (body.len() + FRAME_HEADER_LENGTH) as u16,
    );
    assert(frame_bytes(command, sequence, body, tag).take(FRAME_HEADER_LENGTH as int) == header);
    law_frame_reads_back(
        command,
        sequence,
        modbus_crc(body),
        changed,
        tag,
        rest,
        encrypted,
        enc_rand,
        expected_commands,
    );
}

/// A frame of which one byte of the payload was changed on the way is refused
/// for its checksum, encrypted or not.
pub proof fn law_changed_byte_is_refused(
    command: u16,
    sequence: u16,
    body: Seq<u8>,
    i: int,
    byte: u8,
    tag: Seq<u8>,
    rest: Seq<u8>,
    encrypted: bool,
    enc_rand: Option<Seq<u8>>,
    expected_commands: Seq<u16>,
)
    requires
        expected_commands.contains(command),
        body.len() + FRAME_HEADER_LENGTH <= MAX_FRAME_LENGTH,
        tag.len() == tag_length(encrypted),
        0 <= i < body.len(),
        byte != body[i],
    ensures
        read_frame(
            frame_bytes(command, sequence, body, tag).update(FRAME_HEADER_LENGTH + i, byte) + rest,
            sequence,
            encrypted,
            enc_rand,
            expected_commands,
        ) == Err::<Seq<u8>, _>(
            InverterError::CrcMismatch {
                calculated: modbus_crc(body.update(i, byte)),
                received: modbus_crc(body),
            },
        ),
{
    let changed = body.update(i, byte);
    law_changed_byte_changes_checksum(body, i, byte);
    law_changed_payload_is_refused(
        command,
        sequence,
        body,
        changed,
        tag,
        rest,
        encrypted,
        enc_rand,
        expected_commands,
    );
    let frame = frame_bytes(command, sequence, body, tag);
    assert(frame.update(FRAME_HEADER_LENGTH + i, byte) + rest == frame.take(
        FRAME_HEADER_LENGTH as int,
    ) + changed + tag + rest);
}

/// A plain frame gives back its payload, whatever follows it on the stream.
pub proof fn law_plain_round_trip(
    command: u16,
    sequence: u16,
    payload: Seq<u8>,
    rest: Seq<u8>,
    enc_rand: Option<Seq<u8>>,
    expected_commands: Seq<u16>,
)
    requires
        expected_commands.contains(command),
        payload.len() + FRAME_HEADER_LENGTH <= MAX_FRAME_LENGTH,
    ensures
        framed(command, sequence, payload, false, enc_rand) matches Ok(frame) && read_frame(
            frame + rest,
            sequence,
            false,
            enc_rand,
            expected_commands,
        ) == Ok::<_, InverterError>(payload),
{
    law_frame_reads_back(
        command,
        sequence,
        modbus_crc(payload),
        payload,
        Seq::empty(),
        rest,
        false,
        enc_rand,
        expected_commands,
    );
}

/// An encrypted frame gives back the plaintext that the cipher opens its
/// payload to, whatever follows it on the stream.
pub proof fn law_encrypted_round_trip(
    command: u16,
    sequence: u16,
    payload: Seq<u8>,
    rest: Seq<u8>,
    enc_rand: Seq<u8>,
    expected_commands: Seq<u16>,
)
    requires
        expected_commands.contains(command),
        payload.len() + FRAME_HEADER_LENGTH <= MAX_FRAME_LENGTH,
        sealed(enc_rand, command, sequence, payload) matches Ok(c) && c.len() == payload.len()
            + GCM_TAG_LENGTH && opened(enc_rand, command, sequence, c) == Ok::<_, CryptoError>(
            payload,
        ),
    ensures
        framed(command, sequence, payload, true, Some(enc_rand)) matches Ok(frame) && read_frame(
            frame + rest,
            sequence,
            true,
            Some(enc_rand),
            expected_commands,
        ) == Ok::<_, InverterError>(payload),
{
    let c = sealed(enc_rand, command, sequence, payload)->Ok_0;
    let body = c.take(payload.len() as int);
    let tag = c.skip(payload.len() as int);
    law_frame_reads_back(
        command,
        sequence,
        modbus_crc(body),
        body,
        tag,
        rest,
        true,
        Some(enc_rand),
        expected_commands,
    );
    assert(body + tag == c);
}

/// A frame of which only the tag was changed on the way fails to authenticate.
pub proof fn law_changed_tag_is_refused(
    command: u16,
    sequence: u16,
    ciphertext: Seq<u8>,
    tag: Seq<u8>,
    rest: Seq<u8>,
    enc_rand: Seq<u8>,
    expected_commands: Seq<u16>,
)
    requires
        expected_commands.contains(command),
        GCM_TAG_LENGTH <= ciphertext.len(),
        ciphertext.len() - GCM_TAG_LENGTH + FRAME_HEADER_LENGTH <= MAX_FRAME_LENGTH,
        other_tags_fail(enc_rand, command, sequence, ciphertext),
        tag.len() == GCM_TAG_LENGTH,
        tag != ciphertext.skip(ciphertext.len() - GCM_TAG_LENGTH),
    ensures
        read_frame(
            frame_bytes(
                command,
                sequence,
                ciphertext.take(ciphertext.len() - GCM_TAG_LENGTH),
                tag,
            ) + rest,
            sequence,
            true,
            Some(enc_rand),
            expected_commands,
        ) == Err::<Seq<u8>, _>(InverterError::Crypto(CryptoError::AuthenticationFailed)),
{
    let body = ciphertext.take(ciphertext.len() - GCM_TAG_LENGTH);
    law_frame_reads_back(
        command,
        sequence,
        modbus_crc(body),
        body,
        tag,
        rest,
        true,
        Some(enc_rand),
        expected_commands,
    );
}

/// A header that passes every check is made of what it says.
proof fn lemma_header_is_rebuilt(
    header: Seq<u8>,
    expected_sequence: u16,
    expected_commands: Seq<u16>,
)
    requires
        header.len() == FRAME_HEADER_LENGTH,
        parsed_header(header, expected_sequence, expected_commands) is Ok,
    ensures
        ({
            let h = parsed_header(header, expected_sequence, expected_commands)->Ok_0;
            header == header_bytes(
                h.command,
                h.sequence,
                h.crc,
                (h.payload_length + FRAME_HEADER_LENGTH) as u16,
            )
        }),
{
    law_be_reads_all_bytes(header[2], header[3]);
    law_be_reads_all_bytes(header[4], header[5]);
    law_be_reads_all_bytes(header[6], header[7]);
    law_be_reads_all_bytes(header[8], header[9]);
    let h = parsed_header(header, expected_sequence, expected_commands)->Ok_0;
    let length = (h.payload_length + FRAME_HEADER_LENGTH) as u16;
    assert(length == from_be(header[8], header[9]));
    assert(header == header_bytes(h.command, h.sequence, h.crc, length));
}

/// A stream from which a payload was read starts with the frame of that
/// payload; where it is encrypted, this rests on encryption leading back to
/// what was decrypted.
proof fn lemma_read_frame_is_carried(
    stream: Seq<u8>,
    expected_sequence: u16,
    encrypted: bool,
    enc_rand: Option<Seq<u8>>,
    expected_commands: Seq<u16>,
    header: Header,
    payload: Seq<u8>,
)
    requires
        read_frame(stream, expected_sequence, encrypted, enc_rand, expected_commands) == Ok::<
            _,
            InverterError,
        >(payload),
        parsed_header(
            stream.take(FRAME_HEADER_LENGTH as int),
            expected_sequence,
            expected_commands,
        ) == Ok::<_, InverterError>(header),
        encrypted ==> payload.len() == header.payload_length && sealed(
            enc_rand->0,
            header.command,
            expected_sequence,
            payload,
        ) == Ok::<_, CryptoError>(
            stream.subrange(
                FRAME_HEADER_LENGTH as int,
                FRAME_HEADER_LENGTH + header.payload_length + GCM_TAG_LENGTH,
            ),
        ),
    ensures
        expected_commands.contains(header.command),
        carries(stream, header.command, expected_sequence, payload, encrypted, enc_rand),
{
    let head = stream.take(FRAME_HEADER_LENGTH as int);
    lemma_header_is_rebuilt(head, expected_sequence, expected_commands);
    let end = FRAME_HEADER_LENGTH + header.payload_length;
    let tag_end = end + tag_length(encrypted) as int;
    let body = stream.subrange(FRAME_HEADER_LENGTH as int, end);
    let tag = stream.subrange(end, tag_end);
    assert(stream.take(tag_end) == head + body + tag);
    assert(stream.take(tag_end) == frame_bytes(header.command, expected_sequence, body, tag));
    if encrypted {
        let c = stream.subrange(FRAME_HEADER_LENGTH as int, tag_end);
        assert(c.take(payload.len() as int) == body);
        assert(c.skip(payload.len() as int) == tag);
    } else {
        assert(tag == Seq::<u8>::empty());
    }
    assert(stream.take(tag_end).is_prefix_of(stream));
}

/// Builds the frame of a request. Whoever expects its command and its sequence
/// number, and knows the random string where the frame is encrypted, reads the
/// payload back from it; with another tag the frame fails to authenticate.
pub fn build_frame(
    command: u16,
    sequence: u16,
    payload: &[u8],
    encrypted: bool,
    enc_rand: Option<&[u8]>,
) -> (r: Result<Vec<u8>, InverterError>)
    requires
        encrypted ==> payload@.len() + GCM_TAG_LENGTH <= isize::MAX,
    ensures
        bytes_view(r) == framed(command, sequence, payload@, encrypted, slice_view(enc_rand)),
        r matches Ok(frame) ==> frame@.len() == FRAME_HEADER_LENGTH + payload@.len() + tag_length(
            encrypted,
        ),
        r matches Ok(frame) ==> forall|rest: Seq<u8>, commands: Seq<u16>|
            commands.contains(command) ==> #[trigger] read_frame(
                frame@ + rest,
                sequence,
                encrypted,
                slice_view(enc_rand),
                commands,
            ) == Ok::<_, InverterError>(payload@),
        !encrypted ==> (r is Ok <==> payload@.len() <= 65525),
        encrypted ==> (r is Ok <==> enc_rand is Some && enc_rand->0@.len() == 16 && payload@.len()
            <= 65525),
        r matches Ok(frame) ==> {
            &&& frame@[0] == 0x48 && frame@[1] == 0x4d
            &&& frame@[2] * 256 + frame@[3] == command
            &&& frame@[4] * 256 + frame@[5] == sequence
            &&& frame@[6] * 256 + frame@[7] == modbus_crc(
                frame@.subrange(10, 10 + payload@.len() as int),
            )
            &&& frame@[8] * 256 + frame@[9] == payload@.len() + 10
            &&& !encrypted ==> frame@.skip(10) == payload@
        },
        encrypted ==> (r matches Ok(frame) ==> forall|
            tag: Seq<u8>,
            rest: Seq<u8>,
            commands: Seq<u16>,
        |
            commands.contains(command) && tag.len() == GCM_TAG_LENGTH && tag != frame@.skip(
                frame@.len() - GCM_TAG_LENGTH,
            ) ==> #[trigger] read_frame(
                frame@.take(frame@.len() - GCM_TAG_LENGTH) + tag + rest,
                sequence,
                encrypted,
                slice_view(enc_rand),
                commands,
            ) == Err::<Seq<u8>, _>(InverterError::Crypto(CryptoError::AuthenticationFailed))),
{
    let wire_payload: Vec<u8> = if encrypted {
        match enc_rand {
            None => {
                return Err(InverterError::RequestWithoutEncRand);
            },
            Some(rand) => match encrypt(rand, command, sequence, payload) {
                Err(e) => {
                    return Err(InverterError::Crypto(e));
                },
                Ok(c) => c,
            },
        }
    } else {
        slice_to_vec(payload)
    };
    let body_length: usize = if encrypted {
        wire_payload.len() - GCM_TAG_LENGTH
    } else {
        wire_payload.len()
    };
    let length: usize = match body_length.checked_add(FRAME_HEADER_LENGTH) {
        None => {
            return Err(InverterError::RequestLengthOverflow);
        },
        Some(length) => length,
    };
    if length > MAX_FRAME_LENGTH {
        return Err(InverterError::RequestTooLarge { length });
    }
    let crc = checksum(slice_subrange(wire_payload.as_slice(), 0, body_length));

    let mut frame: Vec<u8> = Vec::new();
    frame.push(0x48);
    frame.push(0x4d);
    push_be(&mut frame, command);
    push_be(&mut frame, sequence);
    push_be(&mut frame, crc);
    push_be(&mut frame, length as u16);
    push_all(&mut frame, wire_payload.as_slice());
    proof {
        let body = wire_payload@.take(body_length as int);
        let tag = wire_payload@.skip(body_length as int);
        assert(wire_payload@.subrange(0, body_length as int) == body);
        assert(body + tag == wire_payload@);
        assert(tag.len() == tag_length(encrypted));
        assert(frame@ == frame_bytes(command, sequence, body, tag));
        law_frame_layout(command, sequence, body, tag);
        if !encrypted {
            assert(frame@.skip(10) =~= body);
            assert(body == payload@);
            assert(tag == Seq::<u8>::empty());
        }
        assert forall|rest: Seq<u8>, commands: Seq<u16>|
            commands.contains(command) implies #[trigger] read_frame(
            frame@ + rest,
            sequence,
            encrypted,
            slice_view(enc_rand),
            commands,
        ) == Ok::<_, InverterError>(payload@) by {
            if encrypted {
                law_encrypted_round_trip(
                    command,
                    sequence,
                    payload@,
                    rest,
                    enc_rand.unwrap()@,
                    commands,
                );
            } else {
                law_plain_round_trip(
                    command,
                    sequence,
                    payload@,
                    rest,
                    slice_view(enc_rand),
                    commands,
                );
            }
        }
    }
    proof {
        if encrypted {
            let end = frame@.len() - GCM_TAG_LENGTH;
            let body = wire_payload@.take(body_length as int);
            assert(frame@.skip(end) == wire_payload@.skip(body_length as int));
            assert forall|tag: Seq<u8>, rest: Seq<u8>, commands: Seq<u16>|
                commands.contains(command) && tag.len() == GCM_TAG_LENGTH && tag != frame@.skip(
                    end,
                ) implies #[trigger] read_frame(
                frame@.take(end) + tag + rest,
                sequence,
                encrypted,
                slice_view(enc_rand),
                commands,
            ) == Err::<Seq<u8>, _>(InverterError::Crypto(CryptoError::AuthenticationFailed)) by {
                law_changed_tag_is_refused(
                    command,
                    sequence,
                    wire_payload@,
                    tag,
                    rest,
                    enc_rand.unwrap()@,
                    commands,
                );
                assert(frame@.take(end) + tag == frame_bytes(command, sequence, body, tag));
            }
        }
    }
    Ok(frame)
}

/// Whether `command` is one of `commands`.
fn contains_command(commands: &[u16], command: u16) -> (b: bool)
    ensures
        b == commands@.contains(command),
{
    for i in 0..commands.len()
        invariant
            forall|j: int| 0 <= j < i ==> commands@[j] != command,
    {
        if commands[i] == command {
            return true;
        }
    }
    false
}

/// Checks a header against the request that it should answer.
pub fn parse_header(header: &[u8], expected_sequence: u16, expected_commands: &[u16]) -> (r: Result<
    Header,
    InverterError,
>)
    requires
        header@.len() == FRAME_HEADER_LENGTH,
    ensures
        r == parsed_header(header@, expected_sequence, expected_commands@),
{
    if header[0] != 0x48 || header[1] != 0x4d {
        return Err(InverterError::InvalidMagic);
    }
    let command = read_be(header[2], header[3]);
    if !contains_command(expected_commands, command) {
        return Err(InverterError::UnexpectedCommand { command });
    }
    let sequence = read_be(header[4], header[5]);
    if sequence != expected_sequence {
        return Err(
            InverterError::UnexpectedSequence { sequence, expected: expected_sequence },
        );
    }
    let crc = read_be(header[6], header[7]);
    let length: usize = read_be(header[8], header[9]) as usize;
    if length < FRAME_HEADER_LENGTH {
        return Err(InverterError::InvalidFrameLength { length });
    }
    Ok(Header { command, sequence, crc, payload_length: length - FRAME_HEADER_LENGTH })
}

/// Reads the response at the front of a byte stream. A payload is read only
/// from the very frame that [`build_frame`] makes of it under one of the
/// expected commands and the expected sequence number.
pub fn read_response(
    stream: &[u8],
    expected_sequence: u16,
    encrypted: bool,
    enc_rand: Option<&[u8]>,
    expected_commands: &[u16],
) -> (r: Result<Vec<u8>, InverterError>)
    ensures
        bytes_view(r) == read_frame(
            stream@,
            expected_sequence,
            encrypted,
            slice_view(enc_rand),
            expected_commands@,
        ),
        r matches Ok(payload) ==> exists|command: u16|
            expected_commands@.contains(command) && #[trigger] carries(
                stream@,
                command,
                expected_sequence,
                payload@,
                encrypted,
                slice_view(enc_rand),
            ),
{
    if stream.len() < FRAME_HEADER_LENGTH {
        return Err(InverterError::HeaderUnread);
    }
    let head = slice_subrange(stream, 0, FRAME_HEADER_LENGTH);
    assert(head@ == stream@.take(FRAME_HEADER_LENGTH as int));
    let header = match parse_header(head, expected_sequence, expected_commands) {
        Err(e) => {
            return Err(e);
        },
        Ok(header) => header,
    };
    let behind: usize = stream.len() - FRAME_HEADER_LENGTH;
    if behind < header.payload_length {
        return Err(InverterError::PayloadUnread);
    }
    let end: usize = FRAME_HEADER_LENGTH + header.payload_length;
    if encrypted && stream.len() - end < GCM_TAG_LENGTH {
        return Err(InverterError::TagUnread);
    }
    let body = slice_subrange(stream, FRAME_HEADER_LENGTH, end);
    let crc = checksum(body);
    if crc != header.crc {
        return Err(InverterError::CrcMismatch { calculated: crc, received: header.crc });
    }
    if !encrypted {
        let payload = slice_to_vec(body);
        proof {
            lemma_read_frame_is_carried(
                stream@,
                expected_sequence,
                encrypted,
                slice_view(enc_rand),
                expected_commands@,
                header,
                payload@,
            );
        }
        return Ok(payload);
    }
    let body_and_tag = slice_subrange(stream, FRAME_HEADER_LENGTH, end + GCM_TAG_LENGTH);
    assert(body_and_tag@ == body@ + stream@.subrange(end as int, end + GCM_TAG_LENGTH));
    match enc_rand {
        None => Err(InverterError::ResponseWithoutEncRand),
        Some(rand) => match decrypt(rand, header.command, header.sequence, body_and_tag) {
            Err(e) => Err(InverterError::Crypto(e)),
            Ok(payload) => {
                proof {
                    lemma_read_frame_is_carried(
                        stream@,
                        expected_sequence,
                        encrypted,
                        slice_view(enc_rand),
                        expected_commands@,
                        header,
                        payload@,
                    );
                }
                Ok(payload)
            },
        },
    }
}

/// What a [`ResponseReader`] stands for.
#[verifier::ext_equal]
pub struct Reading {
    pub expected_sequence: u16,
    pub encrypted: bool,
    pub enc_rand: Option<Seq<u8>>,
    pub expected_commands: Seq<u16>,
    pub received: Seq<u8>,
}

impl Reading {
    /// How many more bytes the part of the frame that comes next needs: the
    /// header, then the payload, then the tag. Nothing is needed once the frame
    /// is complete; a header that fails a check ends the reading.
    pub open spec fn still_needed(self) -> Result<nat, InverterError> {
        let held = self.received.len();
        if held < FRAME_HEADER_LENGTH {
            Ok((FRAME_HEADER_LENGTH - held) as nat)
        } else {
            match parsed_header(
                self.received.take(FRAME_HEADER_LENGTH as int),
                self.expected_sequence,
                self.expected_commands,
            ) {
                Err(e) => Err(e),
                Ok(header) => {
                    let end = FRAME_HEADER_LENGTH + header.payload_length;
                    if held < end {
                        Ok((end - held) as nat)
                    } else if held < end + tag_length(self.encrypted) {
                        Ok((end + tag_length(self.encrypted) - held) as nat)
                    } else {
                        Ok(0)
                    }
                },
            }
        }
    }

    /// What the bytes received so far amount to.
    pub open spec fn outcome(self) -> Result<Seq<u8>, InverterError> {
        read_frame(
            self.received,
            self.expected_sequence,
            self.encrypted,
            self.enc_rand,
            self.expected_commands,
        )
    }

    /// The reading after more bytes.
    pub open spec fn extended(self, bytes: Seq<u8>) -> Reading {
        Reading { received: self.received + bytes, ..self }
    }
}

/// Collects a response that arrives in pieces.
pub struct ResponseReader {
    expected_sequence: u16,
    encrypted: bool,
    enc_rand: Option<Vec<u8>>,
    expected_commands: Vec<u16>,
    received: Vec<u8>,
}

impl View for ResponseReader {
    type V = Reading;

    closed spec fn view(&self) -> Reading {
        Reading {
            expected_sequence: self.expected_sequence,
            encrypted: self.encrypted,
            enc_rand: match self.enc_rand {
                Some(rand) => Some(rand@),
                None => None,
            },
            expected_commands: self.expected_commands@,
            received: self.received@,
        }
    }
}

impl ResponseReader {
    /// A reader that has received nothing yet.
    pub fn new(
        expected_sequence: u16,
        encrypted: bool,
        enc_rand: Option<&[u8]>,
        expected_commands: &[u16],
    ) -> (reader: ResponseReader)
        ensures
            reader@ == (Reading {
                expected_sequence,
                encrypted,
                enc_rand: slice_view(enc_rand),
                expected_commands: expected_commands@,
                received: Seq::empty(),
            }),
    {
        ResponseReader {
            expected_sequence,
            encrypted,
            enc_rand: match enc_rand {
                Some(rand) => Some(slice_to_vec(rand)),
                None => None,
            },
            expected_commands: slice_to_vec(expected_commands),
            received: Vec::new(),
        }
    }

    /// How many bytes to read next; zero once the frame is complete.
    pub fn needed(&self) -> (r: Result<usize, InverterError>)
        ensures
            match r {
                Ok(n) => self@.still_needed() == Ok::<_, InverterError>(n as nat),
                Err(e) => self@.still_needed() == Err::<nat, _>(e),
            },
    {
        let held: usize = self.received.len();
        if held < FRAME_HEADER_LENGTH {
            return Ok(FRAME_HEADER_LENGTH - held);
        }
        let head = slice_subrange(self.received.as_slice(), 0, FRAME_HEADER_LENGTH);
        assert(head@ == self.received@.take(FRAME_HEADER_LENGTH as int));
        let header = match parse_header(
            head,
            self.expected_sequence,
            self.expected_commands.as_slice(),
        ) {
            Err(e) => {
                return Err(e);
            },
            Ok(header) => header,
        };
        let end: usize = FRAME_HEADER_LENGTH + header.payload_length;
        if held < end {
            Ok(end - held)
        } else if self.encrypted && held - end < GCM_TAG_LENGTH {
            Ok(GCM_TAG_LENGTH - (held - end))
        } else {
            Ok(0)
        }
    }

    /// Takes in bytes that have arrived.
    pub fn feed(&mut self, bytes: &[u8])
        ensures
            final(self)@ == old(self)@.extended(bytes@),
    {
        push_all(&mut self.received, bytes);
    }

    /// The payload, or why the response is refused. A response that is not
    /// complete is refused by the part that is missing. A payload is read only
    /// from the very frame that [`build_frame`] makes of it.
    pub fn finish(&self) -> (r: Result<Vec<u8>, InverterError>)
        ensures
            bytes_view(r) == self@.outcome(),
            r matches Ok(payload) ==> exists|command: u16|
                self@.expected_commands.contains(command) && #[trigger] carries(
                    self@.received,
                    command,
                    self@.expected_sequence,
                    payload@,
                    self@.encrypted,
                    self@.enc_rand,
                ),
    {
        let enc_rand: Option<&[u8]> = match &self.enc_rand {
            Some(rand) => Some(rand.as_slice()),
            None => None,
        };
        read_response(
            self.received.as_slice(),
            self.expected_sequence,
            self.encrypted,
            enc_rand,
            self.expected_commands.as_slice(),
        )
    }
}

/// A complete frame is judged by itself: what follows it on the stream does
/// not change the outcome.
pub proof fn law_complete_frame_decides(reading: Reading, rest: Seq<u8>)
    requires
        reading.still_needed() == Ok::<nat, InverterError>(0),
    ensures
        reading.extended(rest).outcome() == reading.outcome(),
        reading.extended(rest).still_needed() == Ok::<nat, InverterError>(0),
{
    let all = reading.received + rest;
    let head = reading.received.take(FRAME_HEADER_LENGTH as int);
    assert(all.take(FRAME_HEADER_LENGTH as int) == head);
    let header = parsed_header(
        head,
        reading.expected_sequence,
        reading.expected_commands,
    )->Ok_0;
    let end = FRAME_HEADER_LENGTH + header.payload_length;
    let tag_end = end + tag_length(reading.encrypted) as int;
    assert(all.subrange(FRAME_HEADER_LENGTH as int, end) == reading.received.subrange(
        FRAME_HEADER_LENGTH as int,
        end,
    ));
    assert(all.subrange(end, tag_end) == reading.received.subrange(end, tag_end));
}

/// A header that fails a check decides alone: the error is known before any
/// byte of the payload, and no later byte changes it.
pub proof fn law_bad_header_decides(reading: Reading, rest: Seq<u8>)
    requires
        reading.still_needed() is Err,
    ensures
        reading.extended(rest).outcome() == Err::<Seq<u8>, InverterError>(
            reading.still_needed()->Err_0,
        ),
{
    assert((reading.received + rest).take(FRAME_HEADER_LENGTH as int) == reading.received.take(
        FRAME_HEADER_LENGTH as int,
    ));
}

/// As long as bytes are needed, the response is refused as unread; and the
/// number of bytes asked for never reaches past the end of the frame: a stream
/// that starts with what was received and on which the frame can be read holds
/// them all.
pub proof fn law_needed_bytes_belong_to_frame(reading: Reading, rest: Seq<u8>)
    requires
        reading.still_needed() matches Ok(n) && n > 0,
    ensures
        reading.outcome() matches Err(e) && (e == InverterError::HeaderUnread || e
            == InverterError::PayloadUnread || e == InverterError::TagUnread),
        ({
            let whole = reading.extended(rest).outcome();
            ||| rest.len() >= reading.still_needed()->Ok_0
            ||| whole == Err::<Seq<u8>, InverterError>(InverterError::HeaderUnread)
            ||| whole == Err::<Seq<u8>, InverterError>(InverterError::PayloadUnread)
            ||| whole == Err::<Seq<u8>, InverterError>(InverterError::TagUnread)
        }),
{
    if reading.received.len() >= FRAME_HEADER_LENGTH {
        assert((reading.received + rest).take(FRAME_HEADER_LENGTH as int) == reading.received.take(
            FRAME_HEADER_LENGTH as int,
        ));
    }
}

/// A reader that is fed a frame bit by bit asks for more as long as the frame
/// is not complete, never for bytes behind it, and for none once it is.
pub proof fn law_reader_stops_at_end_of_frame(
    reading: Reading,
    command: u16,
    body: Seq<u8>,
    tag: Seq<u8>,
    held: int,
)
    requires
        reading.expected_commands.contains(command),
        body.len() + FRAME_HEADER_LENGTH <= MAX_FRAME_LENGTH,
        tag.len() == tag_length(reading.encrypted),
        0 <= held <= frame_bytes(command, reading.expected_sequence, body, tag).len(),
        reading.received == frame_bytes(command, reading.expected_sequence, body, tag).take(held),
    ensures
        ({
            let length = frame_bytes(command, reading.expected_sequence, body, tag).len();
            reading.still_needed() matches Ok(n) && (n == 0 <==> held == length) && held + n
                <= length
        }),
{
    let crc = modbus_crc(body);
    let length = (body.len() + FRAME_HEADER_LENGTH) as u16;
    lemma_header_reads_back(
        command,
        reading.expected_sequence,
        crc,
        length,
        reading.expected_commands,
    );
    if held >= FRAME_HEADER_LENGTH {
        assert(reading.received.take(FRAME_HEADER_LENGTH as int) == header_bytes(
            command,
            reading.expected_sequence,
            crc,
            length,
        ));
    }
}

/// How a stream is cut into pieces does not matter.
pub proof fn law_pieces_add_up(reading: Reading, first: Seq<u8>, second: Seq<u8>)
    ensures
        reading.extended(first).extended(second) == reading.extended(first + second),
{
    assert((reading.received + first) + second == reading.received + (first + second));
}

/// Where each part of a frame lies: two letters, then command, sequence number,
/// checksum and length with the more significant byte first, then the payload
/// and then the tag. The checksum is that of the payload alone, and the length
/// that of header and payload.
pub proof fn law_frame_layout(command: u16, sequence: u16, body: Seq<u8>, tag: Seq<u8>)
    requires
        body.len() <= 65525,
    ensures
        ({
            let frame = frame_bytes(command, sequence, body, tag);
            &&& frame.len() == 10 + body.len() + tag.len()
            &&& frame[0] == 0x48 && frame[1] == 0x4d
            &&& frame[2] * 256 + frame[3] == command
            &&& frame[4] * 256 + frame[5] == sequence
            &&& frame[6] * 256 + frame[7] == modbus_crc(body)
            &&& frame[8] * 256 + frame[9] == body.len() + 10
            &&& frame.subrange(10, 10 + body.len() as int) == body
            &&& frame.skip(10 + body.len() as int) == tag
        }),
{
    let frame = frame_bytes(command, sequence, body, tag);
    let length = (body.len() + 10) as u16;
    let crc = modbus_crc(body);
    crate::bytes::law_bytes_weigh_their_places(command);
    crate::bytes::law_bytes_weigh_their_places(sequence);
    crate::bytes::law_bytes_weigh_their_places(crc);
    crate::bytes::law_bytes_weigh_their_places(length);
    assert(frame[2] == be_bytes(command)[0] && frame[3] == be_bytes(command)[1]);
    assert(frame[4] == be_bytes(sequence)[0] && frame[5] == be_bytes(sequence)[1]);
    assert(frame[6] == be_bytes(crc)[0] && frame[7] == be_bytes(crc)[1]);
    assert(frame[8] == be_bytes(length)[0] && frame[9] == be_bytes(length)[1]);
    assert(frame.subrange(10, 10 + body.len() as int) =~= body);
    assert(frame.skip(10 + body.len() as int) =~= tag);
}

/// Which plain requests have a frame: those whose header and payload fit in
/// 65535 bytes. The frame then carries the payload as it is and nothing behind
/// it.
pub proof fn law_plain_requests_are_framed(
    command: u16,
    sequence: u16,
    payload: Seq<u8>,
    enc_rand: Option<Seq<u8>>,
)
    requires
        payload.len() + 10 <= usize::MAX,
    ensures
        payload.len() > 65525 ==> framed(command, sequence, payload, false, enc_rand) == Err::<
            Seq<u8>,
            _,
        >(InverterError::RequestTooLarge { length: (payload.len() + 10) as usize }),
        payload.len() <= 65525 ==> (framed(command, sequence, payload, false, enc_rand) matches Ok(
            frame,
        ) && {
            &&& frame.len() == 10 + payload.len()
            &&& frame[0] == 0x48 && frame[1] == 0x4d
            &&& frame[2] * 256 + frame[3] == command
            &&& frame[4] * 256 + frame[5] == sequence
            &&& frame[6] * 256 + frame[7] == modbus_crc(payload)
            &&& frame[8] * 256 + frame[9] == payload.len() + 10
            &&& frame.skip(10) == payload
        }),
{
    if payload.len() <= 65525 {
        let frame = frame_bytes(command, sequence, payload, Seq::empty());
        law_frame_layout(command, sequence, payload, Seq::empty());
        assert(frame.skip(10) =~= frame.subrange(10, 10 + payload.len() as int));
    }
}

/// Which encrypted requests have a frame: those of a known random string with
/// sixteen bytes whose header and payload fit in 65535 bytes. The frame carries
/// the ciphertext and behind it the tag; the checksum is that of the ciphertext
/// without its tag, and the length does not count the tag.
pub proof fn law_encrypted_requests_are_framed(
    command: u16,
    sequence: u16,
    payload: Seq<u8>,
    enc_rand: Option<Seq<u8>>,
    ciphertext: Seq<u8>,
)
    requires
        payload.len() + 10 <= usize::MAX,
        ciphertext.len() == payload.len() + 16,
        ciphertext == ({
            let message = seq![
                (command % 256) as u8,
                (command / 256) as u8,
                (sequence % 256) as u8,
                (sequence / 256) as u8,
            ];
            aes128_gcm_seal(
                sha256(sha256(sha256(enc_rand->0))).subrange(0, 16),
                sha256(sha256(sha256(message + enc_rand->0))).subrange(20, 32),
                message,
                payload,
            )
        }),
    ensures
        enc_rand is None ==> framed(command, sequence, payload, true, enc_rand) == Err::<
            Seq<u8>,
            _,
        >(InverterError::RequestWithoutEncRand),
        enc_rand matches Some(rand) ==> rand.len() != 16 ==> framed(
            command,
            sequence,
            payload,
            true,
            enc_rand,
        ) == Err::<Seq<u8>, _>(
            InverterError::Crypto(
                CryptoError::InvalidEncRandLength { actual: rand.len() as usize },
            ),
        ),
        enc_rand matches Some(rand) ==> rand.len() == 16 && 65525 < payload.len() <= 0x10_0000_0000
            ==> framed(command, sequence, payload, true, enc_rand) == Err::<Seq<u8>, _>(
            InverterError::RequestTooLarge { length: (payload.len() + 10) as usize },
        ),
        enc_rand matches Some(rand) ==> rand.len() == 16 && payload.len() <= 65525 ==> (framed(
            command,
            sequence,
            payload,
            true,
            enc_rand,
        ) matches Ok(frame) && {
            &&& frame.len() == 10 + payload.len() + 16
            &&& frame[0] == 0x48 && frame[1] == 0x4d
            &&& frame[2] * 256 + frame[3] == command
            &&& frame[4] * 256 + frame[5] == sequence
            &&& frame[6] * 256 + frame[7] == modbus_crc(ciphertext.take(payload.len() as int))
            &&& frame[8] * 256 + frame[9] == payload.len() + 10
            &&& frame.skip(10) == ciphertext
        }),
{
    if let Some(rand) = enc_rand {
        law_payload_is_sealed_for_its_message(rand, command, sequence, payload);
        if rand.len() == 16 && payload.len() <= 65525 {
            let body = ciphertext.take(payload.len() as int);
            let tag = ciphertext.skip(payload.len() as int);
            law_frame_layout(command, sequence, body, tag);
            let frame = frame_bytes(command, sequence, body, tag);
            assert(frame.skip(10) =~= body + tag);
            assert(body + tag =~= ciphertext);
        }
    }
}

/// What is read from a stream, told by the bytes of the stream alone: the checks
/// come in a fixed order, each with its error; a plain payload is what lies
/// between header and declared length, and an encrypted one is what the cipher
/// opens there together with the sixteen bytes behind.
pub proof fn law_stream_is_read_byte_by_byte(
    stream: Seq<u8>,
    expected_sequence: u16,
    encrypted: bool,
    enc_rand: Option<Seq<u8>>,
    expected_commands: Seq<u16>,
)
    ensures
        ({
            let r = read_frame(
                stream,
                expected_sequence,
                encrypted,
                enc_rand,
                expected_commands,
            );
            let command = stream[2] * 256 + stream[3];
            let sequence = stream[4] * 256 + stream[5];
            let crc = stream[6] * 256 + stream[7];
            let length = stream[8] * 256 + stream[9];
            if stream.len() < 10 {
                r == Err::<Seq<u8>, _>(InverterError::HeaderUnread)
            } else if stream[0] != 0x48 || stream[1] != 0x4d {
                r == Err::<Seq<u8>, _>(InverterError::InvalidMagic)
            } else if !expected_commands.contains(command as u16) {
                r == Err::<Seq<u8>, _>(InverterError::UnexpectedCommand { command: command as u16 })
            } else if sequence != expected_sequence {
                r == Err::<Seq<u8>, _>(
                    InverterError::UnexpectedSequence {
                        sequence: sequence as u16,
                        expected: expected_sequence,
                    },
                )
            } else if length < 10 {
                r == Err::<Seq<u8>, _>(InverterError::InvalidFrameLength { length: length as usize })
            } else if stream.len() < length {
                r == Err::<Seq<u8>, _>(InverterError::PayloadUnread)
            } else if encrypted && stream.len() < length + 16 {
                r == Err::<Seq<u8>, _>(InverterError::TagUnread)
            } else if modbus_crc(stream.subrange(10, length)) != crc {
                r == Err::<Seq<u8>, _>(
                    InverterError::CrcMismatch {
                        calculated: modbus_crc(stream.subrange(10, length)),
                        received: crc as u16,
                    },
                )
            } else if !encrypted {
                r == Ok::<_, InverterError>(stream.subrange(10, length))
            } else if enc_rand is None {
                r == Err::<Seq<u8>, _>(InverterError::ResponseWithoutEncRand)
            } else if enc_rand->0.len() != 16 {
                r == Err::<Seq<u8>, _>(
                    InverterError::Crypto(
                        CryptoError::InvalidEncRandLength { actual: enc_rand->0.len() as usize },
                    ),
                )
            } else {
                let message = seq![stream[3], stream[2], stream[5], stream[4]];
                match aes128_gcm_open(
                    sha256(sha256(sha256(enc_rand->0))).subrange(0, 16),
                    sha256(sha256(sha256(message + enc_rand->0))).subrange(20, 32),
                    message,
                    stream.subrange(10, length + 16),
                ) {
                    Some(payload) => r == Ok::<_, InverterError>(payload),
                    None => r == Err::<Seq<u8>, _>(
                        InverterError::Crypto(CryptoError::AuthenticationFailed),
                    ),
                }
            }
        }),
{
    if stream.len() >= 10 {
        let head = stream.take(10);
        assert(forall|i: int| 0 <= i < 10 ==> head[i] == stream[i]);
        crate::bytes::law_read_number_weighs_its_bytes(stream[2], stream[3]);
        crate::bytes::law_read_number_weighs_its_bytes(stream[4], stream[5]);
        crate::bytes::law_read_number_weighs_its_bytes(stream[6], stream[7]);
        crate::bytes::law_read_number_weighs_its_bytes(stream[8], stream[9]);
        let command = (stream[2] * 256 + stream[3]) as u16;
        let sequence = (stream[4] * 256 + stream[5]) as u16;
        let length = stream[8] * 256 + stream[9];
        let parsed = parsed_header(head, expected_sequence, expected_commands);
        if let Ok(header) = parsed {
            if encrypted && stream.len() >= length + 16 {
                let c = stream.subrange(10, length) + stream.subrange(length, length + 16);
                assert(c =~= stream.subrange(10, length + 16));
                if let Some(rand) = enc_rand {
                    law_payload_is_opened_for_its_message(rand, command, sequence, c);
                    assert(seq![
                        (command % 256) as u8,
                        (command / 256) as u8,
                        (sequence % 256) as u8,
                        (sequence / 256) as u8,
                    ] =~= seq![stream[3], stream[2], stream[5], stream[4]]);
                }
            }
        }
    }
}

/// How many bytes a reader asks for, told by the bytes it holds alone: up to the
/// end of the ten header bytes, then up to the declared length, then up to the
/// sixteen bytes behind that where the response is encrypted, then none.
pub proof fn law_reader_asks_for_the_next_part(reading: Reading)
    ensures
        ({
            let held = reading.received;
            let length = held[8] * 256 + held[9];
            let r = reading.still_needed();
            &&& held.len() < 10 ==> r == Ok::<nat, InverterError>((10 - held.len()) as nat)
            &&& held.len() >= 10 && r is Ok ==> {
                &&& held.len() < length ==> r->Ok_0 == length - held.len()
                &&& length <= held.len() && reading.encrypted && held.len() < length + 16
                    ==> r->Ok_0 == length + 16 - held.len()
                &&& length <= held.len() && (!reading.encrypted || length + 16 <= held.len())
                    ==> r->Ok_0 == 0
            }
            &&& r is Ok <==> held.len() < 10 || held[0] == 0x48 && held[1] == 0x4d
                && reading.expected_commands.contains((held[2] * 256 + held[3]) as u16) && held[4]
                * 256 + held[5] == reading.expected_sequence && length >= 10
        }),
{
    let held = reading.received;
    if held.len() >= 10 {
        let head = held.take(10);
        assert(forall|i: int| 0 <= i < 10 ==> head[i] == held[i]);
        crate::bytes::law_read_number_weighs_its_bytes(held[2], held[3]);
        crate::bytes::law_read_number_weighs_its_bytes(held[4], held[5]);
        crate::bytes::law_read_number_weighs_its_bytes(held[8], held[9]);
    }
}

/// A reading is judged as the stream of the bytes it holds, under what it
/// expects, and more bytes go behind those it holds.
pub proof fn law_reading_is_its_stream(reading: Reading, bytes: Seq<u8>)
    ensures
        reading.outcome() == read_frame(
            reading.received,
            reading.expected_sequence,
            reading.encrypted,
            reading.enc_rand,
            reading.expected_commands,
        ),
        reading.extended(bytes).received == reading.received + bytes,
        reading.extended(bytes).expected_sequence == reading.expected_sequence,
        reading.extended(bytes).encrypted == reading.encrypted,
        reading.extended(bytes).enc_rand == reading.enc_rand,
        reading.extended(bytes).expected_commands == reading.expected_commands,
{
}

/// The MODBUS checksum of nothing is a register of ones, and one more byte is
/// folded into the low half before eight shifts with the polynomial 0xa001.
pub proof fn law_checksum_grows_byte_by_byte(data: Seq<u8>, byte: u8)
    ensures
        modbus_crc(Seq::empty()) == 0xffff,
        modbus_crc(data.push(byte)) == crc_extended(modbus_crc(data), byte),
        forall|crc: u16|
            #![trigger crc_shifted(crc)]
            crc_shifted(crc) == (if crc % 2 == 1 {
                (crc / 2) as u16 ^ 0xa001
            } else {
                (crc / 2) as u16
            }),
{
    assert(data.push(byte).drop_last() == data);
    assert forall|crc: u16| #![trigger crc_shifted(crc)] crc_shifted(crc) == (if crc % 2 == 1 {
        (crc / 2) as u16 ^ 0xa001
    } else {
        (crc / 2) as u16
    }) by {
        assert(crc & 1 == crc % 2) by (bit_vector);
        assert(crc >> 1 == crc / 2) by (bit_vector);
    }
}

/// An optional byte slice is modelled by its bytes.
pub proof fn law_optional_bytes_are_kept(bytes: Option<&[u8]>)
    ensures
        bytes is None ==> slice_view(bytes) is None,
        bytes matches Some(b) ==> slice_view(bytes) == Some(b@),
{
}

} // verus!
