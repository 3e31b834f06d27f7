use hms2mqtt::crypto::{decrypt, derive_key, derive_nonce, encrypt, CryptoError};

#[test]
fn derives_protocol_key_and_nonce() {
    let enc_rand = [0x10_u8; 16];
    let key = derive_key(&enc_rand).expect("valid enc_rand");
    let nonce = derive_nonce(&enc_rand, 0xa311, 1).expect("valid enc_rand");

    assert_eq!(
        key,
        [
            0x96, 0x40, 0x2a, 0xae, 0x09, 0x16, 0x65, 0xac, 0x6c, 0xc8, 0x1f, 0xb1, 0x29, 0xcd,
            0x09, 0x0e
        ]
    );
    assert_eq!(
        nonce,
        [0xd1, 0xb0, 0xbd, 0x5d, 0x52, 0x0f, 0x5d, 0x5a, 0xbe, 0x28, 0xcb, 0xc2]
    );
}

#[test]
fn encrypts_and_decrypts_with_authentication() {
    let enc_rand = [0x42_u8; 16];
    let plaintext = b"synthetic telemetry";
    let ciphertext = encrypt(&enc_rand, 0xa311, 7, plaintext).expect("encryption succeeds");

    assert_eq!(
        decrypt(&enc_rand, 0xa311, 7, &ciphertext).expect("decryption succeeds"),
        plaintext
    );
}

#[test]
fn rejects_invalid_enc_rand_and_tampering() {
    assert_eq!(
        derive_key(&[0_u8; 15]),
        Err(CryptoError::InvalidEncRandLength { actual: 15 })
    );

    let enc_rand = [0x24_u8; 16];
    let mut ciphertext = encrypt(&enc_rand, 0xa311, 7, b"payload").expect("encryption succeeds");
    ciphertext[0] ^= 1;
    assert_eq!(
        decrypt(&enc_rand, 0xa311, 7, &ciphertext),
        Err(CryptoError::AuthenticationFailed)
    );
    assert_eq!(
        decrypt(
            &enc_rand,
            0xa311,
            8,
            &encrypt(&enc_rand, 0xa311, 7, b"payload").expect("encryption succeeds")
        ),
        Err(CryptoError::AuthenticationFailed)
    );
}

#[test]
fn encrypts_to_the_exact_bytes_of_the_protocol() {
    let enc_rand = [0x10_u8; 16];
    let expected: [u8; 35] = [
        0xb2, 0xbb, 0xcd, 0x06, 0x0b, 0xfe, 0x8f, 0x31, 0xb0, 0xe0, 0x23, 0xda, 0x92, 0x58, 0x27,
        0x7f, 0xb5, 0x7b, 0x7e, 0x0a, 0x32, 0x12, 0x90, 0x47, 0xb6, 0x1b, 0xcc, 0xf4, 0x7c, 0x68,
        0xee, 0x58, 0x55, 0xff, 0x8c,
    ];
    assert_eq!(
        encrypt(&enc_rand, 0xa311, 1, b"synthetic telemetry"),
        Ok(expected.to_vec())
    );
    assert_eq!(
        decrypt(&enc_rand, 0xa311, 1, &expected),
        Ok(b"synthetic telemetry".to_vec())
    );
}

#[test]
fn encrypts_an_empty_payload_to_its_tag() {
    let enc_rand = [0x10_u8; 16];
    let tag: [u8; 16] = [
        0xaf, 0x17, 0xf5, 0x5f, 0x89, 0x47, 0xbf, 0xcb, 0x93, 0x35, 0xce, 0xf9, 0xd0, 0x2a, 0xca,
        0x8e,
    ];
    assert_eq!(encrypt(&enc_rand, 0xa311, 1, b""), Ok(tag.to_vec()));
    assert_eq!(decrypt(&enc_rand, 0xa311, 1, &tag), Ok(Vec::new()));
}

#[test]
fn refuses_every_single_changed_byte() {
    let enc_rand = [0x10_u8; 16];
    let sealed = encrypt(&enc_rand, 0xa311, 1, b"payload").expect("encryption succeeds");
    for place in 0..sealed.len() {
        let mut changed = sealed.clone();
        changed[place] ^= 0x80;
        assert_eq!(
            decrypt(&enc_rand, 0xa311, 1, &changed),
            Err(CryptoError::AuthenticationFailed)
        );
    }
}

#[test]
fn refuses_a_ciphertext_shorter_than_its_tag() {
    assert_eq!(
        decrypt(&[0x10; 16], 0xa311, 1, &[0; 15]),
        Err(CryptoError::AuthenticationFailed)
    );
}

#[test]
fn refuses_another_command_and_another_random_string() {
    let sealed = encrypt(&[0x10; 16], 0xa311, 1, b"payload").expect("encryption succeeds");
    assert_eq!(
        decrypt(&[0x10; 16], 0xa211, 1, &sealed),
        Err(CryptoError::AuthenticationFailed)
    );
    assert_eq!(
        decrypt(&[0x11; 16], 0xa311, 1, &sealed),
        Err(CryptoError::AuthenticationFailed)
    );
}

#[test]
fn every_function_refuses_a_random_string_of_the_wrong_length() {
    let refused = CryptoError::InvalidEncRandLength { actual: 17 };
    assert_eq!(derive_key(&[0; 17]), Err(refused));
    assert_eq!(derive_nonce(&[0; 17], 0xa311, 1), Err(refused));
    assert_eq!(encrypt(&[0; 17], 0xa311, 1, b"payload"), Err(refused));
    assert_eq!(decrypt(&[0; 17], 0xa311, 1, &[0; 32]), Err(refused));
}

#[test]
fn renders_crypto_errors() {
    assert_eq!(
        CryptoError::InvalidEncRandLength { actual: 15 }.to_string(),
        "enc_rand must contain 16 bytes, got 15"
    );
    assert_eq!(
        CryptoError::InvalidKey.to_string(),
        "unable to initialize AES-128-GCM"
    );
    assert_eq!(
        CryptoError::AuthenticationFailed.to_string(),
        "AES-GCM authentication failed"
    );
}

#[test]
fn what_decrypts_is_what_encryption_makes() {
    let enc_rand = [0x33_u8; 16];
    let sealed = encrypt(&enc_rand, 0xa205, 65535, &[9; 40]).expect("encryption succeeds");
    let plaintext = decrypt(&enc_rand, 0xa205, 65535, &sealed).expect("decryption succeeds");
    assert_eq!(encrypt(&enc_rand, 0xa205, 65535, &plaintext), Ok(sealed));
}
