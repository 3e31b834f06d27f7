//! Encryption of protocol payloads: AES-128-GCM under a key and a nonce that
//! are both derived from the random string of the device.

use crate::bytes::{le_bytes, push_all, push_le};
use crate::text::{decimal, push_decimal};
use aes_gcm::aead::Aead;
use aes_gcm::KeyInit;
use sha2::Digest;
use vstd::prelude::*;

verus! {

/// Length of the random string that a device hands out.
pub const ENC_RAND_LENGTH: usize = 16;

/// Length of an AES-128 key.
pub const AES_KEY_LENGTH: usize = 16;

/// Length of an AES-GCM nonce.
pub const NONCE_LENGTH: usize = 12;

/// Length of the authentication tag behind every ciphertext.
pub const GCM_TAG_LENGTH: usize = 16;

/// The longest plaintext that AES-GCM takes.
pub const MAX_PLAINTEXT_LENGTH: u64 = 0x10_0000_0000;

/// Why a payload could not be encrypted or decrypted.
#[derive(Clone, Copy, Debug, PartialEq, Eq, Structural)]
pub enum CryptoError {
    /// The random string of the device does not have its fixed length.
    InvalidEncRandLength { actual: usize },
    /// The cipher does not take the key.
    InvalidKey,
    /// The cipher refuses the payload.
    AuthenticationFailed,
}

impl CryptoError {
    /// The text of the error.
    pub open spec fn message(self) -> Seq<char> {
        match self {
            CryptoError::InvalidEncRandLength { actual } => {
                "enc_rand must contain 16 bytes, got "@ + decimal(actual as nat)
            },
            CryptoError::InvalidKey => "unable to initialize AES-128-GCM"@,
            CryptoError::AuthenticationFailed => "AES-GCM authentication failed"@,
        }
    }

    /// Renders the error as text.
    pub fn to_string(&self) -> (s: String)
        ensures
            s@ == self.message(),
    {
        match self {
            CryptoError::InvalidEncRandLength { actual } => {
                let mut s = String::from_str("enc_rand must contain 16 bytes, got ");
                push_decimal(&mut s, *actual as u64);
                s
            },
            CryptoError::InvalidKey => String::from_str("unable to initialize AES-128-GCM"),
            CryptoError::AuthenticationFailed => String::from_str("AES-GCM authentication failed"),
        }
    }
}

#[verifier::external_type_specification]
#[verifier::external_body]
pub struct ExAeadError(aes_gcm::Error);

#[verifier::external_type_specification]
#[verifier::external_body]
pub struct ExInvalidLength(aes_gcm::aes::cipher::InvalidLength);

/// What `sha2::Sha256::digest` returns for `data`.
pub uninterp spec fn sha256(data: Seq<u8>) -> Seq<u8>;

/// What the `encrypt` of `aes_gcm::Aes128Gcm` returns for a key, a nonce,
/// associated data and a plaintext: the ciphertext with the tag behind it.
pub uninterp spec fn aes128_gcm_seal(
    key: Seq<u8>,
    nonce: Seq<u8>,
    aad: Seq<u8>,
    plaintext: Seq<u8>,
) -> Seq<u8>;

/// What the `decrypt` of `aes_gcm::Aes128Gcm` returns for a key, a nonce,
/// associated data and a ciphertext with its tag: the plaintext, or nothing
/// where the tag does not authenticate them.
pub uninterp spec fn aes128_gcm_open(
    key: Seq<u8>,
    nonce: Seq<u8>,
    aad: Seq<u8>,
    ciphertext: Seq<u8>,
) -> Option<Seq<u8>>;

/// Whether no other tag behind the same ciphertext opens under the same key,
/// nonce and associated data.
pub open spec fn no_other_tag_opens(
    key: Seq<u8>,
    nonce: Seq<u8>,
    aad: Seq<u8>,
    ciphertext: Seq<u8>,
) -> bool {
    let end = ciphertext.len() - GCM_TAG_LENGTH;
    forall|tag: Seq<u8>|
        tag.len() == GCM_TAG_LENGTH && tag != ciphertext.skip(end) ==> (
        #[trigger] aes128_gcm_open(key, nonce, aad, ciphertext.take(end) + tag)) is None
}

/// Calls `sha2::Sha256::digest`. Claimed: the digest is a function of the data
/// alone and has 32 bytes. Data so long that the number of its bits does not
/// fit the 64-bit counter of the algorithm is left out.
#[verifier::external_body]
fn sha256_digest(data: &[u8]) -> (digest: [u8; 32])
    requires
        data@.len() < 0x2000_0000_0000_0000,
    ensures
        digest@ == sha256(data@),
        digest@.len() == 32,
{
    sha2::Sha256::digest(data).into()
}

/// Calls `Aes128Gcm::new_from_slice` and then `encrypt` with associated data.
/// Claimed: the key is taken exactly where it has 16 bytes; the plaintext is
/// taken exactly where neither it nor the associated data exceeds the limit of
/// the cipher; the result is a function of the four arguments alone, is longer
/// than the plaintext by the tag, and opens to the plaintext under the same
/// key, nonce and associated data, but with no other tag. A plaintext that leaves no room for the tag
/// in one allocation is left out.
#[verifier::external_body]
fn aes128_gcm_encrypt(key: &[u8], nonce: &[u8; 12], aad: &[u8], plaintext: &[u8]) -> (sealed: Result<
    Result<Vec<u8>, aes_gcm::Error>,
    aes_gcm::aes::cipher::InvalidLength,
>)
    requires
        plaintext@.len() + GCM_TAG_LENGTH <= isize::MAX,
    ensures
        sealed is Ok <==> key@.len() == AES_KEY_LENGTH,
        sealed matches Ok(r) ==> (r is Ok <==> plaintext@.len() <= MAX_PLAINTEXT_LENGTH
            && aad@.len() <= MAX_PLAINTEXT_LENGTH),
        sealed matches Ok(Ok(c)) ==> c@ == aes128_gcm_seal(key@, nonce@, aad@, plaintext@),
        sealed matches Ok(Ok(c)) ==> c@.len() == plaintext@.len() + GCM_TAG_LENGTH,
        sealed matches Ok(Ok(c)) ==> aes128_gcm_open(key@, nonce@, aad@, c@) == Some(plaintext@),
        sealed matches Ok(Ok(c)) ==> no_other_tag_opens(key@, nonce@, aad@, c@),
{
    let cipher = aes_gcm::Aes128Gcm::new_from_slice(key)?;
    Ok(cipher.encrypt(nonce.into(), aes_gcm::aead::Payload { msg: plaintext, aad }))
}

/// Calls `Aes128Gcm::new_from_slice` and then `decrypt` with associated data.
/// Claimed: the key is taken exactly where it has 16 bytes; the result is a
/// function of the four arguments alone; what decrypts does so with no other
/// tag; a plaintext is shorter than what it was decrypted from by the tag, is
/// longer than the cipher encrypts by no more than a tag, and encrypting it under the same key, nonce
/// and associated data gives back what it was decrypted from, unless it is
/// longer than the cipher encrypts.
#[verifier::external_body]
fn aes128_gcm_decrypt(key: &[u8], nonce: &[u8; 12], aad: &[u8], ciphertext: &[u8]) -> (opened: Result<
    Result<Vec<u8>, aes_gcm::Error>,
    aes_gcm::aes::cipher::InvalidLength,
>)
    ensures
        opened is Ok <==> key@.len() == AES_KEY_LENGTH,
        opened matches Ok(Ok(p)) ==> aes128_gcm_open(key@, nonce@, aad@, ciphertext@) == Some(p@),
        opened matches Ok(Ok(_)) ==> no_other_tag_opens(key@, nonce@, aad@, ciphertext@),
        opened matches Ok(Ok(p)) ==> p@.len() + GCM_TAG_LENGTH == ciphertext@.len(),
        opened matches Ok(Ok(p)) ==> p@.len() <= MAX_PLAINTEXT_LENGTH + GCM_TAG_LENGTH,
        opened matches Ok(Ok(p)) ==> p@.len() <= MAX_PLAINTEXT_LENGTH ==> aes128_gcm_seal(
            key@,
            nonce@,
            aad@,
            p@,
        ) == ciphertext@,
        opened matches Ok(Err(_)) ==> aes128_gcm_open(key@, nonce@, aad@, ciphertext@) is None,
{
    let cipher = aes_gcm::Aes128Gcm::new_from_slice(key)?;
    Ok(cipher.decrypt(nonce.into(), aes_gcm::aead::Payload { msg: ciphertext, aad }))
}

/// SHA-256 applied three times.
pub open spec fn sha256_thrice(data: Seq<u8>) -> Seq<u8> {
    sha256(sha256(sha256(data)))
}

/// The key of a device: the front of the digest of its random string.
pub open spec fn key_of(enc_rand: Seq<u8>) -> Seq<u8> {
    sha256_thrice(enc_rand).take(16)
}

/// The nonce of one message: the back of the digest of command, sequence
/// number and random string.
pub open spec fn nonce_of(enc_rand: Seq<u8>, command: u16, sequence: u16) -> Seq<u8> {
    sha256_thrice(le_bytes(command) + le_bytes(sequence) + enc_rand).subrange(20, 32)
}

/// The associated data of one message: its command and its sequence number.
pub open spec fn aad_of(command: u16, sequence: u16) -> Seq<u8> {
    le_bytes(command) + le_bytes(sequence)
}

/// What [`encrypt`] owes.
pub open spec fn sealed(
    enc_rand: Seq<u8>,
    command: u16,
    sequence: u16,
    plaintext: Seq<u8>,
) -> Result<Seq<u8>, CryptoError> {
    if enc_rand.len() != ENC_RAND_LENGTH {
        Err(CryptoError::InvalidEncRandLength { actual: enc_rand.len() as usize })
    } else if plaintext.len() > MAX_PLAINTEXT_LENGTH {
        Err(CryptoError::AuthenticationFailed)
    } else {
        Ok(
            aes128_gcm_seal(
                key_of(enc_rand),
                nonce_of(enc_rand, command, sequence),
                aad_of(command, sequence),
                plaintext,
            ),
        )
    }
}

/// What [`decrypt`] owes.
pub open spec fn opened(
    enc_rand: Seq<u8>,
    command: u16,
    sequence: u16,
    ciphertext_with_tag: Seq<u8>,
) -> Result<Seq<u8>, CryptoError> {
    if enc_rand.len() != ENC_RAND_LENGTH {
        Err(CryptoError::InvalidEncRandLength { actual: enc_rand.len() as usize })
    } else {
        match aes128_gcm_open(
            key_of(enc_rand),
            nonce_of(enc_rand, command, sequence),
            aad_of(command, sequence),
            ciphertext_with_tag,
        ) {
            Some(plaintext) => Ok(plaintext),
            None => Err(CryptoError::AuthenticationFailed),
        }
    }
}

/// Whether every other tag behind the same ciphertext fails to authenticate.
pub open spec fn other_tags_fail(
    enc_rand: Seq<u8>,
    command: u16,
    sequence: u16,
    ciphertext_with_tag: Seq<u8>,
) -> bool {
    let end = ciphertext_with_tag.len() - GCM_TAG_LENGTH;
    forall|tag: Seq<u8>|
        tag.len() == GCM_TAG_LENGTH && tag != ciphertext_with_tag.skip(end) ==> #[trigger] opened(
            enc_rand,
            command,
            sequence,
            ciphertext_with_tag.take(end) + tag,
        ) == Err::<Seq<u8>, _>(CryptoError::AuthenticationFailed)
}

/// A byte result by its contents.
pub open spec fn bytes_view<E>(r: Result<Vec<u8>, E>) -> Result<Seq<u8>, E> {
    match r {
        Ok(v) => Ok(v@),
        Err(e) => Err(e),
    }
}

/// The key is the front half of SHA-256 applied three times to the random string
/// as the device sent it.
pub proof fn law_key_is_the_front_of_the_digest(enc_rand: Seq<u8>)
    ensures
        key_of(enc_rand) == sha256(sha256(sha256(enc_rand))).subrange(0, 16),
{
    assert(key_of(enc_rand) =~= sha256(sha256(sha256(enc_rand))).subrange(0, 16));
}

/// The associated data are the bytes of the command and those of the sequence
/// number, the less significant byte first.
pub proof fn law_associated_data_are_command_and_number(command: u16, sequence: u16)
    ensures
        aad_of(command, sequence).len() == 4,
        aad_of(command, sequence)[0] + aad_of(command, sequence)[1] * 256 == command,
        aad_of(command, sequence)[2] + aad_of(command, sequence)[3] * 256 == sequence,
        aad_of(command, sequence) == seq![
            (command % 256) as u8,
            (command / 256) as u8,
            (sequence % 256) as u8,
            (sequence / 256) as u8,
        ],
{
    assert(aad_of(command, sequence) =~= seq![
        (command % 256) as u8,
        (command / 256) as u8,
        (sequence % 256) as u8,
        (sequence / 256) as u8,
    ]);
}

/// The nonce is the last twelve bytes of SHA-256 applied three times to command,
/// sequence number and random string, the numbers with their less significant
/// byte first.
pub proof fn law_nonce_is_the_back_of_the_digest(enc_rand: Seq<u8>, command: u16, sequence: u16)
    ensures
        nonce_of(enc_rand, command, sequence) == sha256(
            sha256(
                sha256(
                    seq![
                        (command % 256) as u8,
                        (command / 256) as u8,
                        (sequence % 256) as u8,
                        (sequence / 256) as u8,
                    ] + enc_rand,
                ),
            ),
        ).subrange(20, 32),
{
    law_associated_data_are_command_and_number(command, sequence);
    assert(le_bytes(command) + le_bytes(sequence) == aad_of(command, sequence));
}

/// A payload is encrypted under the key of the random string, the nonce of the
/// message and, as associated data, its command and number; it is refused only
/// for a random string without sixteen bytes or a length past 2^36.
pub proof fn law_payload_is_sealed_for_its_message(
    enc_rand: Seq<u8>,
    command: u16,
    sequence: u16,
    plaintext: Seq<u8>,
)
    ensures
        enc_rand.len() != 16 ==> sealed(enc_rand, command, sequence, plaintext) == Err::<
            Seq<u8>,
            _,
        >(CryptoError::InvalidEncRandLength { actual: enc_rand.len() as usize }),
        enc_rand.len() == 16 && plaintext.len() > 0x10_0000_0000 ==> sealed(
            enc_rand,
            command,
            sequence,
            plaintext,
        ) == Err::<Seq<u8>, _>(CryptoError::AuthenticationFailed),
        enc_rand.len() == 16 && plaintext.len() <= 0x10_0000_0000 ==> sealed(
            enc_rand,
            command,
            sequence,
            plaintext,
        ) == Ok::<_, CryptoError>(
            ({
                let message = seq![
                    (command % 256) as u8,
                    (command / 256) as u8,
                    (sequence % 256) as u8,
                    (sequence / 256) as u8,
                ];
                aes128_gcm_seal(
                    sha256(sha256(sha256(enc_rand))).subrange(0, 16),
                    sha256(sha256(sha256(message + enc_rand))).subrange(20, 32),
                    message,
                    plaintext,
                )
            }),
        ),
{
    law_key_is_the_front_of_the_digest(enc_rand);
    law_nonce_is_the_back_of_the_digest(enc_rand, command, sequence);
    law_associated_data_are_command_and_number(command, sequence);
}

/// A payload is decrypted under the key of the random string, the nonce of the
/// message and, as associated data, its command and number.
pub proof fn law_payload_is_opened_for_its_message(
    enc_rand: Seq<u8>,
    command: u16,
    sequence: u16,
    ciphertext_with_tag: Seq<u8>,
)
    ensures
        enc_rand.len() != 16 ==> opened(enc_rand, command, sequence, ciphertext_with_tag) == Err::<
            Seq<u8>,
            _,
        >(CryptoError::InvalidEncRandLength { actual: enc_rand.len() as usize }),
        enc_rand.len() == 16 ==> ({
            let message = seq![
                (command % 256) as u8,
                (command / 256) as u8,
                (sequence % 256) as u8,
                (sequence / 256) as u8,
            ];
            let plaintext = aes128_gcm_open(
                sha256(sha256(sha256(enc_rand))).subrange(0, 16),
                sha256(sha256(sha256(message + enc_rand))).subrange(20, 32),
                message,
                ciphertext_with_tag,
            );
            &&& plaintext is None ==> opened(enc_rand, command, sequence, ciphertext_with_tag)
                == Err::<Seq<u8>, _>(CryptoError::AuthenticationFailed)
            &&& plaintext matches Some(p) ==> opened(
                enc_rand,
                command,
                sequence,
                ciphertext_with_tag,
            ) == Ok::<_, CryptoError>(p)
        }),
{
    law_key_is_the_front_of_the_digest(enc_rand);
    law_nonce_is_the_back_of_the_digest(enc_rand, command, sequence);
    law_associated_data_are_command_and_number(command, sequence);
}

/// The text of a crypto error says what it is, and counts the bytes that were
/// there.
pub proof fn law_crypto_errors_say_what_they_are(e: CryptoError)
    ensures
        e matches CryptoError::InvalidEncRandLength { actual } ==> e.message()
            == "enc_rand must contain 16 bytes, got "@ + decimal(actual as nat),
        e is InvalidKey ==> e.message() == "unable to initialize AES-128-GCM"@,
        e is AuthenticationFailed ==> e.message() == "AES-GCM authentication failed"@,
{
}

/// A byte result is modelled by its bytes or by its error.
pub proof fn law_byte_results_are_kept<E>(r: Result<Vec<u8>, E>)
    ensures
        r matches Ok(v) ==> bytes_view(r) == Ok::<_, E>(v@),
        r matches Err(e) ==> bytes_view(r) == Err::<Seq<u8>, _>(e),
{
}

/// Hashes `input` three times.
fn triple_sha256(input: &[u8]) -> (digest: [u8; 32])
    requires
        input@.len() < 0x2000_0000_0000_0000,
    ensures
        digest@ == sha256_thrice(input@),
        digest@.len() == 32,
{
    let first = sha256_digest(input);
    let second = sha256_digest(first.as_slice());
    sha256_digest(second.as_slice())
}

/// Derives the key of a device from its random string.
pub fn derive_key(enc_rand: &[u8]) -> (r: Result<[u8; AES_KEY_LENGTH], CryptoError>)
    ensures
        r is Ok <==> enc_rand@.len() == ENC_RAND_LENGTH,
        r matches Ok(key) ==> key@ == key_of(enc_rand@),
        r matches Ok(key) ==> key@ == sha256(sha256(sha256(enc_rand@))).subrange(0, 16),
        r matches Err(e) ==> e == (CryptoError::InvalidEncRandLength {
            actual: enc_rand@.len() as usize,
        }),
{
    if enc_rand.len() != ENC_RAND_LENGTH {
        return Err(CryptoError::InvalidEncRandLength { actual: enc_rand.len() });
    }
    let digest = triple_sha256(enc_rand);
    let mut key: [u8; AES_KEY_LENGTH] = [0; AES_KEY_LENGTH];
    for i in 0..AES_KEY_LENGTH
        invariant
            digest@.len() == 32,
            key@.len() == AES_KEY_LENGTH,
            forall|j: int| 0 <= j < i ==> key@[j] == digest@[j],
    {
        key[i] = digest[i];
    }
    assert(key@ == key_of(enc_rand@));
    proof {
        law_key_is_the_front_of_the_digest(enc_rand@);
    }
    Ok(key)
}

/// Derives the nonce of one message from the random string of the device, the
/// command and the sequence number.
pub fn derive_nonce(enc_rand: &[u8], command: u16, sequence: u16) -> (r: Result<
    [u8; NONCE_LENGTH],
    CryptoError,
>)
    ensures
        r is Ok <==> enc_rand@.len() == ENC_RAND_LENGTH,
        r matches Ok(nonce) ==> nonce@ == nonce_of(enc_rand@, command, sequence),
        r matches Ok(nonce) ==> nonce@ == sha256(
            sha256(
                sha256(
                    seq![
                        (command % 256) as u8,
                        (command / 256) as u8,
                        (sequence % 256) as u8,
                        (sequence / 256) as u8,
                    ] + enc_rand@,
                ),
            ),
        ).subrange(20, 32),
        r matches Err(e) ==> e == (CryptoError::InvalidEncRandLength {
            actual: enc_rand@.len() as usize,
        }),
{
    if enc_rand.len() != ENC_RAND_LENGTH {
        return Err(CryptoError::InvalidEncRandLength { actual: enc_rand.len() });
    }
    let mut input: Vec<u8> = associated_data(command, sequence);
    push_all(&mut input, enc_rand);
    let digest = triple_sha256(input.as_slice());
    let mut nonce: [u8; NONCE_LENGTH] = [0; NONCE_LENGTH];
    for i in 0..NONCE_LENGTH
        invariant
            digest@.len() == 32,
            nonce@.len() == NONCE_LENGTH,
            forall|j: int| 0 <= j < i ==> nonce@[j] == digest@[20 + j],
    {
        nonce[i] = digest[20 + i];
    }
    assert(nonce@ == nonce_of(enc_rand@, command, sequence));
    proof {
        law_nonce_is_the_back_of_the_digest(enc_rand@, command, sequence);
    }
    Ok(nonce)
}

/// The associated data of one message.
fn associated_data(command: u16, sequence: u16) -> (aad: Vec<u8>)
    ensures
        aad@ == aad_of(command, sequence),
{
    let mut aad: Vec<u8> = Vec::new();
    push_le(&mut aad, command);
    push_le(&mut aad, sequence);
    assert(aad@ == aad_of(command, sequence));
    aad
}

/// Encrypts a payload; the tag comes behind the ciphertext. What comes out
/// opens to the plaintext again under the same random string, command and
/// sequence number, but with no other tag.
pub fn encrypt(enc_rand: &[u8], command: u16, sequence: u16, plaintext: &[u8]) -> (r: Result<
    Vec<u8>,
    CryptoError,
>)
    requires
        plaintext@.len() + GCM_TAG_LENGTH <= isize::MAX,
    ensures
        bytes_view(r) == sealed(enc_rand@, command, sequence, plaintext@),
        r matches Ok(c) ==> c@.len() == plaintext@.len() + GCM_TAG_LENGTH,
        r matches Ok(c) ==> opened(enc_rand@, command, sequence, c@) == Ok::<_, CryptoError>(
            plaintext@,
        ),
        r matches Ok(c) ==> other_tags_fail(enc_rand@, command, sequence, c@),
{
    crypt(enc_rand, command, sequence, plaintext, true)
}

/// Decrypts a payload with its tag behind it. Only what encryption makes of a
/// plaintext decrypts to that plaintext: any other ciphertext or tag under the
/// same random string, command and sequence number does not. The one exception
/// is a plaintext that is up to sixteen bytes longer than encryption takes:
/// it decrypts, and encryption refuses it.
pub fn decrypt(
    enc_rand: &[u8],
    command: u16,
    sequence: u16,
    ciphertext_with_tag: &[u8],
) -> (r: Result<Vec<u8>, CryptoError>)
    ensures
        bytes_view(r) == opened(enc_rand@, command, sequence, ciphertext_with_tag@),
        r matches Ok(p) ==> p@.len() + GCM_TAG_LENGTH == ciphertext_with_tag@.len(),
        r matches Ok(p) ==> p@.len() <= MAX_PLAINTEXT_LENGTH + GCM_TAG_LENGTH,
        r matches Ok(p) ==> sealed(enc_rand@, command, sequence, p@) == (if p@.len()
            <= MAX_PLAINTEXT_LENGTH {
            Ok(ciphertext_with_tag@)
        } else {
            Err(CryptoError::AuthenticationFailed)
        }),
        r is Ok ==> other_tags_fail(enc_rand@, command, sequence, ciphertext_with_tag@),
{
    crypt(enc_rand, command, sequence, ciphertext_with_tag, false)
}

fn crypt(
    enc_rand: &[u8],
    command: u16,
    sequence: u16,
    input: &[u8],
    encrypting: bool,
) -> (r: Result<Vec<u8>, CryptoError>)
    requires
        encrypting ==> input@.len() + GCM_TAG_LENGTH <= isize::MAX,
    ensures
        encrypting ==> bytes_view(r) == sealed(enc_rand@, command, sequence, input@),
        encrypting ==> (r matches Ok(c) ==> c@.len() == input@.len() + GCM_TAG_LENGTH && opened(
            enc_rand@,
            command,
            sequence,
            c@,
        ) == Ok::<_, CryptoError>(input@)),
        !encrypting ==> bytes_view(r) == opened(enc_rand@, command, sequence, input@),
        encrypting ==> (r matches Ok(c) ==> other_tags_fail(enc_rand@, command, sequence, c@)),
        !encrypting ==> (r is Ok ==> other_tags_fail(enc_rand@, command, sequence, input@)),
        !encrypting ==> (r matches Ok(p) ==> p@.len() <= MAX_PLAINTEXT_LENGTH + GCM_TAG_LENGTH),
        !encrypting ==> (r matches Ok(p) ==> p@.len() + GCM_TAG_LENGTH == input@.len() && (p@.len()
            <= MAX_PLAINTEXT_LENGTH ==> sealed(enc_rand@, command, sequence, p@) == Ok::<
            _,
            CryptoError,
        >(input@))),
{
    let key = derive_key(enc_rand)?;
    let nonce = derive_nonce(enc_rand, command, sequence)?;
    let aad = associated_data(command, sequence);
    let output = if encrypting {
        aes128_gcm_encrypt(key.as_slice(), &nonce, aad.as_slice(), input)
    } else {
        aes128_gcm_decrypt(key.as_slice(), &nonce, aad.as_slice(), input)
    };
    match output {
        Err(_) => Err(CryptoError::InvalidKey),
        Ok(Err(_)) => Err(CryptoError::AuthenticationFailed),
        Ok(Ok(bytes)) => Ok(bytes),
    }
}

} // verus!
