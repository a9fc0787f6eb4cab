use base64::Engine;
use chacha20poly1305::aead::{Aead, KeyInit};
use rcli::{
    process_generate_key, process_genpass, process_text_decrypt, process_text_encrypt,
    process_text_sign, process_text_verify, Blake3, ChaCha20Poly1305Engine, Ed25519Signer,
    Ed25519Verifier, KeyGenerator, KeyLoader, TextError, TextSign, TextSignFormat, TextVerify,
};

const MSG: &[u8] = b"hello, world!";

fn test_key() -> Vec<u8> {
    (0u8..32).map(|i| i.wrapping_mul(7).wrapping_add(3)).collect()
}

fn b64(b: &[u8]) -> String {
    base64::engine::general_purpose::URL_SAFE_NO_PAD.encode(b)
}

#[test]
fn test_blake3_sign_verify() {
    let verifier = Blake3::load(&test_key()).unwrap();
    let data = b"hello, world!";
    let signature = verifier.sign(&data[..]);
    assert!(verifier.verify(&data[..], &signature).unwrap());
}

#[test]
fn test_ed25519_sign_verify() {
    let keys = Ed25519Signer::generate();
    let signer = Ed25519Signer::load(&keys[0]).unwrap();
    let verifier = Ed25519Verifier::load(&keys[1]).unwrap();
    let data = b"hello, world!";
    let signature = signer.sign(&data[..]);
    assert!(verifier.verify(&data[..], &signature).unwrap());
}

#[test]
fn test_chacha20poly1305_encrypt_decrypt() {
    let engine = ChaCha20Poly1305Engine::load(&[7u8; 44]).unwrap();
    let data = b"hello, world!";
    let encrypted = engine.encrypt(&data[..]).unwrap();
    let decrypted = engine.decrypt(encrypted.as_bytes()).unwrap();
    assert_eq!(&data[..], &decrypted[..]);
}

#[test]
fn mac_is_the_keyed_blake3_hash() {
    let key = test_key();
    let signer = Blake3::try_new(&key).unwrap();
    let sig = signer.sign(MSG);
    let arr: [u8; 32] = key.clone().try_into().unwrap();
    assert_eq!(sig, blake3::keyed_hash(&arr, MSG).as_bytes().to_vec());
    assert_eq!(sig.len(), 32);
    assert_ne!(sig, key);
    assert_eq!(sig, signer.sign(MSG));
    assert_eq!(Blake3::new(arr).sign(MSG), sig);
}

#[test]
fn mac_rejects_first_byte_flipped() {
    let signer = Blake3::load(&test_key()).unwrap();
    let sig = signer.sign(MSG);
    assert_eq!(signer.verify(MSG, &sig), Ok(true));
    let mut bad = sig.clone();
    bad[0] ^= 0xff;
    assert_eq!(signer.verify(MSG, &bad), Ok(false));
}

#[test]
fn mac_rejects_every_single_bit_flip() {
    let signer = Blake3::load(&test_key()).unwrap();
    let sig = signer.sign(MSG);
    for i in 0..sig.len() {
        for bit in 0..8 {
            let mut bad = sig.clone();
            bad[i] ^= 1 << bit;
            assert_eq!(signer.verify(MSG, &bad), Ok(false));
        }
    }
    let mut msg = MSG.to_vec();
    msg[0] ^= 1;
    assert_eq!(signer.verify(&msg, &sig), Ok(false));
}

#[test]
fn mac_wrong_length_signature_is_false_not_error() {
    let signer = Blake3::load(&test_key()).unwrap();
    assert_eq!(signer.verify(MSG, &[1, 2, 3]), Ok(false));
    assert_eq!(signer.verify(MSG, &[]), Ok(false));
}

#[test]
fn mac_key_length_validation() {
    assert_eq!(Blake3::load(&[0u8; 31]).err(), Some(TextError::KeyError));
    assert!(Blake3::load(&[0u8; 32]).is_ok());
    let mut long = test_key();
    long.extend_from_slice(&[9u8; 10]);
    let a = Blake3::load(&long).unwrap();
    let b = Blake3::load(&test_key()).unwrap();
    assert_eq!(a.sign(MSG), b.sign(MSG));
}

#[test]
fn ed25519_signature_is_64_bytes_and_tamper_is_false() {
    let keys = Ed25519Signer::generate();
    assert_eq!(keys.len(), 2);
    assert_eq!(keys[0].len(), 32);
    assert_eq!(keys[1].len(), 32);
    assert_ne!(keys[0], keys[1]);
    let signer = Ed25519Signer::load(&keys[0]).unwrap();
    let verifier = Ed25519Verifier::load(&keys[1]).unwrap();
    let sig = signer.sign(MSG);
    assert_eq!(sig.len(), 64);
    let mut bad = sig.clone();
    bad[5] ^= 0x10;
    assert_eq!(verifier.verify(MSG, &bad), Ok(false));
    assert_eq!(verifier.verify(b"hello, world?", &sig), Ok(false));
    assert_eq!(verifier.verify(MSG, &sig[..63]), Err(TextError::VerificationError));
}

#[test]
fn ed25519_matches_the_dalek_signature() {
    let seed = [42u8; 32];
    let signer = Ed25519Signer::new(seed);
    let expected = ed25519_dalek::Signer::sign(&ed25519_dalek::SigningKey::from_bytes(&seed), MSG);
    assert_eq!(signer.sign(MSG), expected.to_bytes().to_vec());
}

#[test]
fn ed25519_key_loading_errors() {
    assert_eq!(Ed25519Signer::load(&[1u8; 31]).err(), Some(TextError::KeyError));
    assert_eq!(Ed25519Verifier::load(&[1u8; 31]).err(), Some(TextError::KeyError));
    // y = 2 is not the y-coordinate of a point of the curve.
    let mut not_a_point = [0u8; 32];
    not_a_point[0] = 2;
    assert_eq!(Ed25519Verifier::try_new(&not_a_point).err(), Some(TextError::KeyError));
}

#[test]
fn generated_mac_key_is_a_printable_password() {
    let keys = process_generate_key(TextSignFormat::Blake3);
    assert_eq!(keys.len(), 1);
    let key = &keys[0];
    assert_eq!(key.len(), 32);
    assert!(key.iter().any(|c| c.is_ascii_uppercase()));
    assert!(key.iter().any(|c| c.is_ascii_lowercase()));
    assert!(key.iter().any(|c| c.is_ascii_digit()));
    assert!(key.iter().any(|c| b"!@#$%^&*_".contains(c)));
    assert!(key.iter().all(|c| !b"IOl0".contains(c)));
    assert!(Blake3::load(key).is_ok());
}

#[test]
fn genpass_respects_classes() {
    let p = process_genpass(16, false, false, true, false);
    assert_eq!(p.len(), 16);
    assert!(p.iter().all(|c| b"123456789".contains(c)));
    let q = process_genpass(4, true, true, true, true);
    assert_eq!(q.len(), 4);
    assert!(q.iter().any(|c| c.is_ascii_uppercase()));
    assert!(q.iter().any(|c| b"!@#$%^&*_".contains(c)));
    assert!(process_genpass(0, false, false, false, false).is_empty());
}

#[test]
fn cipher_round_trip_with_zero_key() {
    let key = [0u8; 44];
    let text = process_text_encrypt(MSG, &key).unwrap();
    assert_eq!(process_text_decrypt(text.as_bytes(), &key), Ok("hello, world!".to_string()));
    let mut flipped = key;
    flipped[43] ^= 1;
    assert_eq!(process_text_decrypt(text.as_bytes(), &flipped), Err(TextError::CryptoError));
}

#[test]
fn cipher_output_is_the_aead_ciphertext() {
    let key = [0u8; 44];
    let text = process_text_encrypt(MSG, &key).unwrap();
    let cipher = chacha20poly1305::ChaCha20Poly1305::new((&[0u8; 32]).into());
    let ct = cipher.encrypt((&[0u8; 12]).into(), MSG).unwrap();
    assert_eq!(ct.len(), MSG.len() + 16);
    assert_eq!(text, b64(&ct));
}

#[test]
fn cipher_tamper_and_encoding_errors() {
    let engine = ChaCha20Poly1305Engine::try_new(&[5u8; 44]).unwrap();
    let text = engine.encrypt(MSG).unwrap();
    let ct = base64::engine::general_purpose::URL_SAFE_NO_PAD.decode(&text).unwrap();
    for i in 0..ct.len() {
        let mut bad = ct.clone();
        bad[i] ^= 0x01;
        assert_eq!(engine.decrypt(b64(&bad).as_bytes()), Err(TextError::CryptoError));
    }
    assert_eq!(engine.decrypt(b"not base64!"), Err(TextError::EncodingError));
    assert_eq!(engine.decrypt(b"AAAA"), Err(TextError::CryptoError));
}

#[test]
fn cipher_key_file_layout() {
    assert_eq!(ChaCha20Poly1305Engine::load(&[0u8; 43]).err(), Some(TextError::KeyError));
    let mut long = vec![0u8; 44];
    long.extend_from_slice(&[1, 2, 3]);
    let a = ChaCha20Poly1305Engine::load(&long).unwrap();
    let b = ChaCha20Poly1305Engine::load(&[0u8; 44]).unwrap();
    assert_eq!(a.encrypt(MSG), b.encrypt(MSG));
    let engine = ChaCha20Poly1305Engine::new([0u8; 32], [0u8; 12]);
    assert_eq!(engine.encrypt(MSG), b.encrypt(MSG));
    assert_eq!(process_text_encrypt(MSG, &[0u8; 10]), Err(TextError::KeyError));
}

#[test]
fn decrypt_rejects_non_utf8_plaintext() {
    let key = [3u8; 44];
    let engine = ChaCha20Poly1305Engine::load(&key).unwrap();
    let text = engine.encrypt(&[0xff, 0xfe]).unwrap();
    assert_eq!(engine.decrypt(text.as_bytes()), Ok(vec![0xff, 0xfe]));
    assert_eq!(process_text_decrypt(text.as_bytes(), &key), Err(TextError::Utf8Error));
    assert_eq!(process_text_decrypt(text.as_bytes(), &[3u8; 20]), Err(TextError::KeyError));
}

#[test]
fn dispatch_sign_and_verify_mac() {
    let key = test_key();
    let text = process_text_sign(MSG, &key, TextSignFormat::Blake3).unwrap();
    let arr: [u8; 32] = key.clone().try_into().unwrap();
    assert_eq!(text, b64(blake3::keyed_hash(&arr, MSG).as_bytes()));
    assert_eq!(text, process_text_sign(MSG, &key, TextSignFormat::Blake3).unwrap());
    assert_eq!(process_text_verify(MSG, &key, TextSignFormat::Blake3, &text), Ok(true));
    assert_eq!(process_text_verify(b"other", &key, TextSignFormat::Blake3, &text), Ok(false));
    assert_eq!(
        process_text_verify(MSG, &key, TextSignFormat::Blake3, "***"),
        Err(TextError::EncodingError)
    );
    assert_eq!(process_text_sign(MSG, &key[..31], TextSignFormat::Blake3), Err(TextError::KeyError));
    assert_eq!(
        process_text_verify(MSG, &key[..31], TextSignFormat::Blake3, &text),
        Err(TextError::KeyError)
    );
}

#[test]
fn dispatch_sign_and_verify_ed25519() {
    let keys = process_generate_key(TextSignFormat::Ed25519);
    let text = process_text_sign(MSG, &keys[0], TextSignFormat::Ed25519).unwrap();
    assert_eq!(
        base64::engine::general_purpose::URL_SAFE_NO_PAD.decode(&text).unwrap().len(),
        64
    );
    assert_eq!(process_text_verify(MSG, &keys[1], TextSignFormat::Ed25519, &text), Ok(true));
    assert_eq!(
        process_text_verify(MSG, &keys[1], TextSignFormat::Ed25519, &b64(&[1u8; 10])),
        Err(TextError::VerificationError)
    );
}

#[test]
fn error_messages_are_distinct() {
    let all = [
        TextError::KeyError,
        TextError::EncodingError,
        TextError::VerificationError,
        TextError::CryptoError,
        TextError::ConfigError,
        TextError::Base64FormatError,
        TextError::OutputFormatError,
        TextError::Utf8Error,
    ];
    for (i, a) in all.iter().enumerate() {
        for b in &all[i + 1..] {
            assert_ne!(a.message(), b.message());
        }
    }
}

#[test]
fn ciphertext_is_message_plus_tag() {
    let key = [9u8; 44];
    for len in [0usize, 1, 13, 64, 100] {
        let msg = vec![0x61u8; len];
        let text = process_text_encrypt(&msg, &key).unwrap();
        let ct = base64::engine::general_purpose::URL_SAFE_NO_PAD.decode(&text).unwrap();
        assert_eq!(ct.len(), len + 16);
        assert_eq!(text.len(), rcli_unpadded_len(len + 16));
        assert_eq!(process_text_encrypt(&msg, &key), Ok(text));
    }
}

fn rcli_unpadded_len(n: usize) -> usize {
    n / 3 * 4 + if n % 3 == 0 { 0 } else { n % 3 + 1 }
}

#[test]
fn dispatch_signature_lengths() {
    let key = test_key();
    let mac = process_text_sign(MSG, &key, TextSignFormat::Blake3).unwrap();
    assert_eq!(base64::engine::general_purpose::URL_SAFE_NO_PAD.decode(&mac).unwrap().len(), 32);
    let ed = process_text_sign(MSG, &key, TextSignFormat::Ed25519).unwrap();
    assert_eq!(base64::engine::general_purpose::URL_SAFE_NO_PAD.decode(&ed).unwrap().len(), 64);
}
