use crc16::{State, MODBUS};
use hms2mqtt::crypto::CryptoError;
use hms2mqtt::error::InverterError;
use hms2mqtt::frame::{build_frame, parse_header, read_response, Header, ResponseReader};
use hms2mqtt::protos::CommandResDTO;
use hms2mqtt::requests::{COMMAND_RES_COMMAND, LEGACY_REAL_DATA_COMMAND};
use protobuf::{CodedInputStream, CodedOutputStream};
use std::io::{self, Read};

struct PartialReader {
    data: Vec<u8>,
    position: usize,
    chunk_size: usize,
}

impl Read for PartialReader {
    fn read(&mut self, buffer: &mut [u8]) -> io::Result<usize> {
        if self.position == self.data.len() {
            return Ok(0);
        }
        let end = (self.position + self.chunk_size)
            .min(self.data.len())
            .min(self.position + buffer.len());
        let length = end - self.position;
        buffer[..length].copy_from_slice(&self.data[self.position..end]);
        self.position = end;
        Ok(length)
    }
}

fn read_all<R: Read>(
    source: &mut R,
    expected_sequence: u16,
    encrypted: bool,
    enc_rand: Option<&[u8]>,
    expected_commands: &[u16],
) -> Result<Vec<u8>, InverterError> {
    let mut reader = ResponseReader::new(expected_sequence, encrypted, enc_rand, expected_commands);
    loop {
        let needed = reader.needed()?;
        if needed == 0 {
            return reader.finish();
        }
        let mut buffer = vec![0_u8; needed];
        let length = source.read(&mut buffer).expect("memory reads");
        if length == 0 {
            return reader.finish();
        }
        reader.feed(&buffer[..length]);
    }
}

#[test]
fn reads_plain_frames_across_partial_tcp_reads() {
    let frame = build_frame(
        LEGACY_REAL_DATA_COMMAND,
        9,
        b"synthetic protobuf",
        false,
        None,
    )
    .expect("frame builds");
    let mut reader = PartialReader {
        data: frame,
        position: 0,
        chunk_size: 2,
    };

    let payload = read_all(&mut reader, 9, false, None, &[LEGACY_REAL_DATA_COMMAND])
        .expect("frame reads");
    assert_eq!(payload, b"synthetic protobuf");
}

#[test]
fn rejects_invalid_crc_before_parsing() {
    let mut frame = build_frame(
        LEGACY_REAL_DATA_COMMAND,
        9,
        b"synthetic protobuf",
        false,
        None,
    )
    .expect("frame builds");
    frame[10] ^= 1;
    let mut reader = io::Cursor::new(frame);

    let error = read_all(&mut reader, 9, false, None, &[LEGACY_REAL_DATA_COMMAND])
        .expect_err("CRC mismatch must fail");
    assert!(error.to_string().contains("CRC mismatch"));
}

#[test]
fn encrypted_frame_crc_excludes_authentication_tag() {
    let enc_rand = [0x42_u8; 16];
    let frame = build_frame(0xa311, 9, b"synthetic protobuf", true, Some(&enc_rand))
        .expect("frame builds");
    let encrypted_payload_length = frame.len() - 10 - 16;
    let crc = State::<MODBUS>::calculate(&frame[10..10 + encrypted_payload_length]);
    assert_eq!(crc, u16::from_be_bytes([frame[6], frame[7]]));
}

#[test]
fn reads_and_decrypts_encrypted_frames() {
    let enc_rand = [0x42_u8; 16];
    let frame = build_frame(0xa211, 9, b"synthetic protobuf", true, Some(&enc_rand))
        .expect("frame builds");
    let mut reader = io::Cursor::new(frame);

    let payload = read_all(&mut reader, 9, true, Some(&enc_rand), &[0xa211])
        .expect("encrypted frame reads");
    assert_eq!(payload, b"synthetic protobuf");
}

fn write_command(request: &CommandResDTO) -> Vec<u8> {
    let mut bytes = Vec::new();
    {
        let mut stream = CodedOutputStream::vec(&mut bytes);
        stream.write_int32(2, request.action).expect("action writes");
        stream.write_int32(4, request.package_nub).expect("package number writes");
        stream.flush().expect("stream flushes");
    }
    bytes
}

fn parse_command(bytes: &[u8]) -> Option<CommandResDTO> {
    let mut stream = CodedInputStream::from_bytes(bytes);
    let mut parsed = CommandResDTO::default();
    while let Some(tag) = stream.read_raw_tag_or_eof().ok()? {
        match tag >> 3 {
            2 => parsed.action = stream.read_int32().ok()?,
            4 => parsed.package_nub = stream.read_int32().ok()?,
            _ => return None,
        }
    }
    Some(parsed)
}

#[test]
fn encrypted_command_uses_existing_frame_path() {
    let enc_rand = [0x42_u8; 16];
    let request = CommandResDTO {
        action: 33,
        package_nub: 1,
        ..Default::default()
    };
    let payload = write_command(&request);
    let frame = build_frame(COMMAND_RES_COMMAND, 9, &payload, true, Some(&enc_rand))
        .expect("encrypted command frame builds");
    let mut reader = io::Cursor::new(frame);

    let decrypted = read_all(
        &mut reader,
        9,
        true,
        Some(&enc_rand),
        &[COMMAND_RES_COMMAND],
    )
    .expect("encrypted command frame reads");
    let parsed = parse_command(&decrypted).expect("request parses");
    assert_eq!(parsed.action, 33);
    assert_eq!(parsed.package_nub, 1);
}

#[test]
fn a_plain_frame_has_these_bytes() {
    let frame = build_frame(0xa303, 0x0102, b"123456789", false, None).expect("frame builds");
    assert_eq!(
        frame,
        b"HM\xa3\x03\x01\x02\x4b\x37\x00\x13123456789".to_vec()
    );
}

#[test]
fn an_empty_frame_is_its_header() {
    let frame = build_frame(0xa303, 1, b"", false, None).expect("frame builds");
    assert_eq!(frame, b"HM\xa3\x03\x00\x01\xff\xff\x00\x0a".to_vec());
    assert_eq!(read_response(&frame, 1, false, None, &[0xa303]), Ok(Vec::new()));
}

#[test]
fn an_encrypted_frame_has_these_bytes() {
    let frame = build_frame(0xa311, 1, b"synthetic telemetry", true, Some(&[0x10; 16]))
        .expect("frame builds");
    assert_eq!(frame.len(), 10 + 19 + 16);
    assert_eq!(frame[..10], *b"HM\xa3\x11\x00\x01\x4c\xb8\x00\x1d");
    assert_eq!(frame[10..14], [0xb2, 0xbb, 0xcd, 0x06]);
    assert_eq!(frame[41..], [0x58, 0x55, 0xff, 0x8c]);
}

#[test]
fn the_largest_frame_and_the_one_above_it() {
    let largest = vec![0x55_u8; 65525];
    let frame = build_frame(0xa303, 1, &largest, false, None).expect("frame builds");
    assert_eq!(frame[8..10], [0xff, 0xff]);
    assert_eq!(read_response(&frame, 1, false, None, &[0xa303]), Ok(largest.clone()));

    let encrypted = build_frame(0xa311, 1, &largest, true, Some(&[7; 16])).expect("frame builds");
    assert_eq!(encrypted.len(), 65535 + 16);
    assert_eq!(
        read_response(&encrypted, 1, true, Some(&[7; 16]), &[0xa311]),
        Ok(largest)
    );

    let above = vec![0x55_u8; 65526];
    let refused = InverterError::RequestTooLarge { length: 65536 };
    assert_eq!(build_frame(0xa303, 1, &above, false, None), Err(refused));
    assert_eq!(build_frame(0xa311, 1, &above, true, Some(&[7; 16])), Err(refused));
}

#[test]
fn an_encrypted_request_needs_a_valid_random_string() {
    assert_eq!(
        build_frame(0xa311, 1, b"payload", true, None),
        Err(InverterError::RequestWithoutEncRand)
    );
    assert_eq!(
        build_frame(0xa311, 1, b"payload", true, Some(&[7; 4])),
        Err(InverterError::Crypto(CryptoError::InvalidEncRandLength { actual: 4 }))
    );
}

#[test]
fn a_plain_request_needs_no_random_string() {
    let frame = build_frame(0xa303, 1, b"payload", false, Some(&[7; 4])).expect("frame builds");
    assert_eq!(frame[10..], *b"payload");
}

#[test]
fn headers_are_checked_in_order() {
    let header = *b"HM\xa2\x03\x00\x09\x12\x34\x00\x1c";
    assert_eq!(
        parse_header(&header, 9, &[0xa303, 0xa203]),
        Ok(Header { command: 0xa203, sequence: 9, crc: 0x1234, payload_length: 18 })
    );

    let mut magic = header;
    magic[1] = b'N';
    magic[3] = 0x44;
    assert_eq!(parse_header(&magic, 9, &[0xa203]), Err(InverterError::InvalidMagic));

    assert_eq!(
        parse_header(&header, 8, &[0xa303]),
        Err(InverterError::UnexpectedCommand { command: 0xa203 })
    );
    assert_eq!(
        parse_header(&header, 9, &[]),
        Err(InverterError::UnexpectedCommand { command: 0xa203 })
    );

    let mut short = header;
    short[9] = 9;
    assert_eq!(
        parse_header(&short, 8, &[0xa203]),
        Err(InverterError::UnexpectedSequence { sequence: 9, expected: 8 })
    );
    assert_eq!(
        parse_header(&short, 9, &[0xa203]),
        Err(InverterError::InvalidFrameLength { length: 9 })
    );
}

#[test]
fn a_stream_that_ends_early_is_refused_by_the_missing_part() {
    let enc_rand = [0x42_u8; 16];
    let frame = build_frame(0xa211, 9, b"payload", true, Some(&enc_rand)).expect("frame builds");
    let read = |length: usize| read_response(&frame[..length], 9, true, Some(&enc_rand), &[0xa211]);
    assert_eq!(read(0), Err(InverterError::HeaderUnread));
    assert_eq!(read(9), Err(InverterError::HeaderUnread));
    assert_eq!(read(10), Err(InverterError::PayloadUnread));
    assert_eq!(read(16), Err(InverterError::PayloadUnread));
    assert_eq!(read(17), Err(InverterError::TagUnread));
    assert_eq!(read(32), Err(InverterError::TagUnread));
    assert_eq!(read(33), Ok(b"payload".to_vec()));
}

#[test]
fn an_encrypted_response_needs_the_right_random_string() {
    let frame = build_frame(0xa211, 9, b"payload", true, Some(&[0x42; 16])).expect("frame builds");
    assert_eq!(
        read_response(&frame, 9, true, None, &[0xa211]),
        Err(InverterError::ResponseWithoutEncRand)
    );
    assert_eq!(
        read_response(&frame, 9, true, Some(&[0x43; 16]), &[0xa211]),
        Err(InverterError::Crypto(CryptoError::AuthenticationFailed))
    );
    assert_eq!(
        read_response(&frame, 9, true, Some(&[0x43; 3]), &[0xa211]),
        Err(InverterError::Crypto(CryptoError::InvalidEncRandLength { actual: 3 }))
    );
}

#[test]
fn the_checksum_is_checked_before_the_tag() {
    let enc_rand = [0x42_u8; 16];
    let mut frame = build_frame(0xa211, 9, b"payload", true, Some(&enc_rand)).expect("frame builds");
    frame[10] ^= 1;
    let calculated = State::<MODBUS>::calculate(&frame[10..17]);
    let received = u16::from_be_bytes([frame[6], frame[7]]);
    assert_eq!(
        read_response(&frame, 9, true, Some(&enc_rand), &[0xa211]),
        Err(InverterError::CrcMismatch { calculated, received })
    );
}

#[test]
fn what_follows_a_frame_is_not_looked_at() {
    let mut stream = build_frame(0xa203, 9, b"payload", false, None).expect("frame builds");
    stream.extend_from_slice(b"HM and more");
    assert_eq!(read_response(&stream, 9, false, None, &[0xa203]), Ok(b"payload".to_vec()));
}

#[test]
fn a_reader_asks_for_header_payload_and_tag() {
    let enc_rand = [0x42_u8; 16];
    let frame = build_frame(0xa211, 9, b"payload", true, Some(&enc_rand)).expect("frame builds");
    let mut reader = ResponseReader::new(9, true, Some(&enc_rand), &[0xa311, 0xa211]);
    assert_eq!(reader.needed(), Ok(10));
    assert_eq!(reader.finish(), Err(InverterError::HeaderUnread));
    reader.feed(&frame[..4]);
    assert_eq!(reader.needed(), Ok(6));
    reader.feed(&frame[4..10]);
    assert_eq!(reader.needed(), Ok(7));
    assert_eq!(reader.finish(), Err(InverterError::PayloadUnread));
    reader.feed(&frame[10..17]);
    assert_eq!(reader.needed(), Ok(16));
    assert_eq!(reader.finish(), Err(InverterError::TagUnread));
    reader.feed(&frame[17..20]);
    assert_eq!(reader.needed(), Ok(13));
    reader.feed(&frame[20..]);
    assert_eq!(reader.needed(), Ok(0));
    assert_eq!(reader.finish(), Ok(b"payload".to_vec()));
}

#[test]
fn a_reader_stops_at_a_bad_header() {
    let mut reader = ResponseReader::new(9, false, None, &[0xa203]);
    reader.feed(b"HX\xa2\x03\x00\x09\x12\x34\x00\x1c");
    assert_eq!(reader.needed(), Err(InverterError::InvalidMagic));
    reader.feed(b"more");
    assert_eq!(reader.needed(), Err(InverterError::InvalidMagic));
    assert_eq!(reader.finish(), Err(InverterError::InvalidMagic));
}

#[test]
fn a_payload_is_read_only_from_its_own_frame() {
    let enc_rand = [0x42_u8; 16];
    let mut stream =
        build_frame(0xa211, 9, b"payload", true, Some(&enc_rand)).expect("frame builds");
    stream.extend_from_slice(b"more");
    let payload =
        read_response(&stream, 9, true, Some(&enc_rand), &[0xa311, 0xa211]).expect("frame reads");
    let rebuilt = build_frame(0xa211, 9, &payload, true, Some(&enc_rand)).expect("frame builds");
    assert!(stream.starts_with(&rebuilt));
}

#[test]
fn it_does_not_matter_how_a_stream_is_cut() {
    let enc_rand = [0x42_u8; 16];
    let frame = build_frame(0xa211, 9, b"payload", true, Some(&enc_rand)).expect("frame builds");
    for chunk_size in 1..=frame.len() {
        let mut source = PartialReader { data: frame.clone(), position: 0, chunk_size };
        assert_eq!(
            read_all(&mut source, 9, true, Some(&enc_rand), &[0xa211]),
            Ok(b"payload".to_vec())
        );
    }
}

#[test]
fn every_changed_byte_of_a_payload_is_refused_for_its_checksum() {
    let frame = build_frame(0xa203, 9, b"synthetic protobuf", false, None).expect("frame builds");
    for place in 10..frame.len() {
        for bit in 0..8 {
            let mut changed = frame.clone();
            changed[place] ^= 1 << bit;
            let calculated = State::<MODBUS>::calculate(&changed[10..]);
            let received = u16::from_be_bytes([frame[6], frame[7]]);
            assert_eq!(
                read_response(&changed, 9, false, None, &[0xa203]),
                Err(InverterError::CrcMismatch { calculated, received })
            );
        }
    }
}

#[test]
fn checksums_have_these_values() {
    let checksum = |payload: &[u8]| {
        let frame = build_frame(0xa303, 1, payload, false, None).expect("frame builds");
        u16::from_be_bytes([frame[6], frame[7]])
    };
    assert_eq!(checksum(b""), 0xffff);
    assert_eq!(checksum(b"123456789"), 0x4b37);
    assert_eq!(checksum(&[1, 2, 3]), 0x6161);
}

#[test]
fn every_changed_byte_of_a_tag_fails_to_authenticate() {
    let enc_rand = [0x42_u8; 16];
    let frame = build_frame(0xa211, 9, b"payload", true, Some(&enc_rand)).expect("frame builds");
    for place in frame.len() - 16..frame.len() {
        let mut changed = frame.clone();
        changed[place] ^= 1;
        assert_eq!(
            read_response(&changed, 9, true, Some(&enc_rand), &[0xa211]),
            Err(InverterError::Crypto(CryptoError::AuthenticationFailed))
        );
    }
}
