use stfx::crypto::ed25519::Ed25519Keypair;
use stfx::crypto::hash::blake2b256;
use stfx::crypto::traits::KeyPair;
use stfx::tsp::cesr_utils::{
    decode_digest, decode_nonce, decode_public_key, decode_signature, encode_digest, encode_nonce,
    encode_public_key, encode_signature,
};
use stfx::tsp::crypto::{open_payload, seal_payload, EncryptedMessage};
use stfx::tsp::error::TspError;
use stfx::tsp::signatures::{sign_message, verify_signature, SignedMessage};
use stfx::tsp::types::TspPayload;

#[test]
fn test_encode_decode_signature() {
    let sig = vec![0u8; 64];
    let encoded = encode_signature(&sig).unwrap();
    let decoded = decode_signature(&encoded).unwrap();
    assert_eq!(decoded, sig);
}

#[test]
fn test_encode_decode_public_key() {
    let key = vec![0u8; 32];
    let encoded = encode_public_key(&key).unwrap();
    let decoded = decode_public_key(&encoded).unwrap();
    assert_eq!(decoded, key);
}

#[test]
fn test_encode_decode_digest() {
    let digest = vec![0u8; 32];
    let encoded = encode_digest(&digest).unwrap();
    let decoded = decode_digest(&encoded).unwrap();
    assert_eq!(decoded, digest);
}

#[test]
fn cesr_utils_test_invalid_signature_length() {
    let invalid_sig = vec![0u8; 32]; // Wrong length
    assert!(encode_signature(&invalid_sig).is_err());
}

#[test]
fn test_invalid_public_key_length() {
    let invalid_key = vec![0u8; 64]; // Wrong length
    assert!(encode_public_key(&invalid_key).is_err());
}

#[test]
fn test_encode_decode_nonce() {
    let nonce = vec![42u8; 12];
    let encoded = encode_nonce(&nonce).unwrap();
    let decoded = decode_nonce(&encoded).unwrap();
    assert_eq!(decoded, nonce);
}

#[test]
fn test_invalid_nonce_length() {
    let invalid_nonce = vec![0u8; 16]; // Wrong length
    assert!(encode_nonce(&invalid_nonce).is_err());
}

#[test]
fn the_text_of_a_nonce_is_its_frame_in_hex() {
    let nonce: Vec<u8> = vec![0x00, 0x01, 0x0a, 0x0f, 0x10, 0x7f, 0x80, 0xab, 0xcd, 0xef, 0xfe, 0xff];
    assert_eq!(
        encode_nonce(&nonce).unwrap(),
        "430d00000c0000000000000000010a0f107f80abcdeffeff"
    );
    // Upper case is read as well as lower case.
    assert_eq!(
        decode_nonce("430D00000C0000000000000000010A0F107F80ABCDEFFEFF").unwrap(),
        nonce
    );
}

#[test]
fn wrong_lengths_are_reported_with_both_lengths() {
    match encode_nonce(&[0; 16]) {
        Err(TspError::Crypto(m)) => assert_eq!(m, "Invalid nonce length: 16 (expected 12)"),
        _ => panic!("expected a crypto error"),
    }
    match encode_signature(&[0; 32]) {
        Err(TspError::Crypto(m)) => {
            assert_eq!(m, "Invalid Ed25519 signature length: 32 (expected 64)")
        }
        _ => panic!("expected a crypto error"),
    }
    match encode_public_key(&[]) {
        Err(TspError::Crypto(m)) => {
            assert_eq!(m, "Invalid Ed25519 public key length: 0 (expected 32)")
        }
        _ => panic!("expected a crypto error"),
    }
    match encode_digest(&[0; 33]) {
        Err(TspError::Crypto(m)) => {
            assert_eq!(m, "Invalid Blake2b-256 digest length: 33 (expected 32)")
        }
        _ => panic!("expected a crypto error"),
    }
}

#[test]
fn decoding_refuses_what_is_no_frame_of_the_kind() {
    let nonce_text = encode_nonce(&[1; 12]).unwrap();
    let digest_text = encode_digest(&[1; 32]).unwrap();
    let key_text = encode_public_key(&[1; 32]).unwrap();
    // Another kind.
    assert!(matches!(decode_signature(&nonce_text), Err(TspError::Cesr(_))));
    assert!(matches!(decode_public_key(&digest_text), Err(TspError::Cesr(_))));
    assert!(matches!(decode_digest(&key_text), Err(TspError::Cesr(_))));
    assert_eq!(decode_digest(&digest_text).unwrap(), vec![1; 32]);
    // Not hexadecimal at all.
    assert!(matches!(decode_nonce("not_valid_hex"), Err(TspError::Cesr(_))));
    assert!(matches!(decode_nonce("abc"), Err(TspError::Cesr(_))));
    assert!(matches!(decode_nonce("\u{e9}\u{e9}"), Err(TspError::Cesr(_))));
    // Hexadecimal, but too short for a frame.
    assert!(matches!(decode_nonce(""), Err(TspError::Cesr(_))));
    assert!(matches!(decode_nonce("0000"), Err(TspError::Cesr(_))));
    // A frame cut short or with bytes behind it.
    assert!(matches!(decode_nonce(&nonce_text[..nonce_text.len() - 2]), Err(TspError::Cesr(_))));
    let mut longer = nonce_text.clone();
    longer.push_str("00");
    assert!(matches!(decode_nonce(&longer), Err(TspError::Cesr(_))));
}

#[test]
fn test_seal_open_payload() {
    let payload = TspPayload::Content(b"hello TSP".to_vec());
    let key = [42u8; 32];
    let aad = b"additional_data".as_slice();

    // Seal
    let encrypted = seal_payload(&payload, &key, aad).unwrap();

    // Open
    let decrypted = open_payload(&encrypted, &key).unwrap();

    // Verify
    if let TspPayload::Content(data) = decrypted {
        assert_eq!(data, b"hello TSP".to_vec());
    } else {
        panic!("Expected Content variant");
    }
}

#[test]
fn test_encrypted_message_serialization() {
    let nonce = vec![1, 2, 3, 4, 5, 6, 7, 8, 9, 10, 11, 12]; // Valid 12-byte nonce
    let encrypted = EncryptedMessage::new(nonce.clone(), vec![4, 5, 6], vec![7, 8, 9]).unwrap();

    let bytes = encrypted.to_bytes().unwrap();
    let restored = EncryptedMessage::from_bytes(&bytes).unwrap();

    assert_eq!(restored.get_nonce().unwrap(), nonce);
    assert_eq!(restored.ciphertext, encrypted.ciphertext);
    assert_eq!(restored.aad, encrypted.aad);
}

#[test]
fn test_encrypted_message_cesr_roundtrip() {
    let nonce = vec![5; 12];
    let enc1 = EncryptedMessage::new(nonce.clone(), vec![1, 2], vec![3, 4]).unwrap();

    let bytes = enc1.to_bytes().unwrap();
    let enc2 = EncryptedMessage::from_bytes(&bytes).unwrap();

    assert_eq!(enc1.get_nonce().unwrap(), enc2.get_nonce().unwrap());
}

#[test]
fn test_message_encryption_roundtrip() {
    let payload = TspPayload::Content(b"sensitive data".to_vec());
    let key = [42u8; 32];
    let aad = b"additional context";

    let encrypted = seal_payload(&payload, &key, aad).unwrap();
    let bytes = encrypted.to_bytes().unwrap();
    let restored = EncryptedMessage::from_bytes(&bytes).unwrap();
    let decrypted = open_payload(&restored, &key).unwrap();

    match decrypted {
        TspPayload::Content(data) => {
            assert_eq!(data, b"sensitive data".to_vec());
        }
        _ => panic!("Expected Content"),
    }
}

#[test]
fn sealing_takes_the_nonce_from_the_associated_data() {
    let payload = TspPayload::Content(b"x".to_vec());
    let key = [1u8; 32];
    let sealed = seal_payload(&payload, &key, b"context").unwrap();
    assert_eq!(sealed.get_nonce().unwrap(), blake2b256(b"context")[..12].to_vec());
    assert_eq!(sealed.aad, b"context".to_vec());
    assert_eq!(sealed.ciphertext.len(), payload.to_bytes().len() + 16);
    assert_ne!(sealed.ciphertext[..payload.to_bytes().len()], payload.to_bytes()[..]);
    // The same key and associated data give the same nonce and ciphertext.
    let again = seal_payload(&payload, &key, b"context").unwrap();
    assert_eq!(again.nonce_cesr, sealed.nonce_cesr);
    assert_eq!(again.ciphertext, sealed.ciphertext);
    assert_eq!(sealed.clone().ciphertext, sealed.ciphertext);
    // Other associated data give another nonce.
    let other = seal_payload(&payload, &key, b"").unwrap();
    assert_ne!(other.nonce_cesr, sealed.nonce_cesr);
}

#[test]
fn every_payload_opens_to_itself() {
    let key = [9u8; 32];
    let payloads = vec![
        TspPayload::Content(vec![]),
        TspPayload::Content((0..=255u8).collect()),
        TspPayload::RequestRelationship {
            route: Some(vec!["r".to_string()]),
            thread_id: vec![3; 32],
        },
        TspPayload::NestedMessage { payload: vec![1; 5000] },
    ];
    for payload in payloads.iter() {
        let sealed = seal_payload(payload, &key, b"aad").unwrap();
        let opened = open_payload(&sealed, &key).unwrap();
        assert_eq!(opened.to_bytes(), payload.to_bytes());
    }
}

#[test]
fn opening_fails_closed() {
    let payload = TspPayload::Content(b"secret".to_vec());
    let key = [9u8; 32];
    let sealed = seal_payload(&payload, &key, b"aad").unwrap();

    // Another key.
    match open_payload(&sealed, &[8u8; 32]) {
        Err(TspError::Crypto(m)) => assert_eq!(m, "AEAD operation failed"),
        _ => panic!("expected a crypto error"),
    }
    // Tampered ciphertext.
    let mut tampered = sealed.clone();
    tampered.ciphertext[0] ^= 1;
    assert!(matches!(open_payload(&tampered, &key), Err(TspError::Crypto(_))));
    // Tampered associated data.
    let mut other_aad = sealed.clone();
    other_aad.aad.push(0);
    assert!(matches!(open_payload(&other_aad, &key), Err(TspError::Crypto(_))));
    // A nonce that does not unframe.
    let mut no_frame = sealed.clone();
    no_frame.nonce_cesr = "zz".to_string();
    match open_payload(&no_frame, &key) {
        Err(TspError::MessageFormat(m)) => assert_eq!(m, "Invalid nonce framing"),
        _ => panic!("expected a message format error"),
    }
    // A frame of a nonce of another length.
    let mut long_nonce = sealed.clone();
    long_nonce.nonce_cesr = "430d00000200000000000000aabb".to_string();
    match open_payload(&long_nonce, &key) {
        Err(TspError::MessageFormat(m)) => assert_eq!(m, "Invalid nonce length"),
        _ => panic!("expected a message format error"),
    }
    // Another nonce.
    let mut other_nonce = sealed.clone();
    other_nonce.nonce_cesr = encode_nonce(&[0; 12]).unwrap();
    assert!(matches!(open_payload(&other_nonce, &key), Err(TspError::Crypto(_))));
    // Authentic bytes that are no payload.
    let mut raw = b"not a payload".to_vec();
    let nonce = sealed.get_nonce().unwrap();
    let mut nonce12 = [0u8; 12];
    nonce12.copy_from_slice(&nonce);
    stfx::crypto::aead::encrypt(&key, &nonce12, b"aad", &mut raw).unwrap();
    let junk = EncryptedMessage::new(nonce, raw, b"aad".to_vec()).unwrap();
    assert!(matches!(open_payload(&junk, &key), Err(TspError::MessageFormat(_))));
}

#[test]
fn an_encrypted_message_needs_a_twelve_byte_nonce() {
    assert!(matches!(
        EncryptedMessage::new(vec![0; 11], vec![], vec![]),
        Err(TspError::Crypto(_))
    ));
    assert!(matches!(
        EncryptedMessage::new(vec![0; 13], vec![], vec![]),
        Err(TspError::Crypto(_))
    ));
    let message = EncryptedMessage::new(vec![0; 12], vec![], vec![]).unwrap();
    assert_eq!(message.get_nonce().unwrap(), vec![0; 12]);
    assert!(matches!(EncryptedMessage::from_bytes(b"junk"), Err(TspError::MessageFormat(_))));
    assert!(matches!(EncryptedMessage::from_bytes(b""), Err(TspError::MessageFormat(_))));
}

#[test]
fn test_sign_verify_message() {
    let kp = Ed25519Keypair::generate().unwrap();
    let msg = b"test message";

    let signed = sign_message(msg, &kp).unwrap();

    assert!(verify_signature(&signed, &kp).is_ok());
}

#[test]
fn test_signed_message_serialization() {
    let kp = Ed25519Keypair::generate().unwrap();
    let msg = b"test message";
    let signed = sign_message(msg, &kp).unwrap();

    let bytes = signed.to_bytes().unwrap();
    let restored = SignedMessage::from_bytes(&bytes).unwrap();

    assert_eq!(restored.message, signed.message);
    assert_eq!(restored.signature_cesr, signed.signature_cesr);
    assert_eq!(restored.public_key_cesr, signed.public_key_cesr);
}

#[test]
fn test_signed_message_verify_basic() {
    let kp = Ed25519Keypair::generate().unwrap();
    let msg = b"test message";
    let signed = sign_message(msg, &kp).unwrap();

    assert!(signed.verify().is_ok());
}

#[test]
fn signatures_test_invalid_signature_length() {
    let message = b"test".to_vec();

    let malformed = SignedMessage {
        message,
        signature_cesr: "not_valid_hex".to_string(),
        public_key_cesr: "0000".to_string(),
    };

    assert!(malformed.verify().is_err());
}

#[test]
fn test_cesr_encoding_roundtrip() {
    let kp = Ed25519Keypair::generate().unwrap();
    let msg = b"test message";

    let signed1 = sign_message(msg, &kp).unwrap();
    let bytes = signed1.to_bytes().unwrap();
    let signed2 = SignedMessage::from_bytes(&bytes).unwrap();

    assert_eq!(signed1.get_signature().unwrap(), signed2.get_signature().unwrap());
    assert_eq!(signed1.get_public_key().unwrap(), signed2.get_public_key().unwrap());
}

#[test]
fn a_signed_message_carries_message_signature_and_key() {
    let kp = Ed25519Keypair::from_secret_key_bytes(&[6u8; 32]).unwrap();
    let signed = sign_message(b"payload", &kp).unwrap();
    assert_eq!(signed.message, b"payload".to_vec());
    assert_eq!(signed.get_signature().unwrap().len(), 64);
    assert_eq!(signed.get_public_key().unwrap(), kp.public_key_bytes().to_vec());
    assert_eq!(signed.clone().signature_cesr, signed.signature_cesr);
}

#[test]
fn the_shape_check_is_not_the_signature_check() {
    let kp = Ed25519Keypair::from_secret_key_bytes(&[6u8; 32]).unwrap();
    let other = Ed25519Keypair::from_secret_key_bytes(&[7u8; 32]).unwrap();
    let signed = sign_message(b"payload", &kp).unwrap();

    // Another message under the same signature: well shaped, not authentic.
    let mut altered = signed.clone();
    altered.message = b"another".to_vec();
    assert!(altered.verify().is_ok());
    match verify_signature(&altered, &kp) {
        Err(TspError::Crypto(m)) => assert_eq!(m, "Signature verification failed"),
        _ => panic!("expected a crypto error"),
    }
    // A signature of another length fails in the same words.
    let mut short = signed.clone();
    short.signature_cesr = "400d00000200000000000000aabb".to_string();
    assert_eq!(short.get_signature().unwrap(), vec![0xaa, 0xbb]);
    match verify_signature(&short, &kp) {
        Err(TspError::Crypto(m)) => assert_eq!(m, "Signature verification failed"),
        _ => panic!("expected a crypto error"),
    }
    assert!(matches!(short.verify(), Err(TspError::Crypto(_))));

    // The wrong keypair.
    assert!(signed.verify().is_ok());
    assert!(matches!(verify_signature(&signed, &other), Err(TspError::Crypto(_))));

    // A zero signature of the right length: well shaped, not authentic.
    let forged = SignedMessage::new(b"payload".to_vec(), vec![0; 64], vec![0; 32]).unwrap();
    assert!(forged.verify().is_ok());
    assert!(verify_signature(&forged, &kp).is_err());

    // A public key text of the wrong kind: authentic, but not well shaped.
    let mut odd_key = signed.clone();
    odd_key.public_key_cesr = "0000".to_string();
    assert!(odd_key.verify().is_err());
    assert!(verify_signature(&odd_key, &kp).is_ok());

    // A signature text that does not unframe fails both.
    let mut no_frame = signed.clone();
    no_frame.signature_cesr = "not_valid_hex".to_string();
    assert!(matches!(no_frame.verify(), Err(TspError::Cesr(_))));
    assert!(matches!(verify_signature(&no_frame, &kp), Err(TspError::Cesr(_))));
}

#[test]
fn a_signed_message_needs_parts_of_the_right_length() {
    assert!(matches!(
        SignedMessage::new(vec![], vec![0; 63], vec![0; 32]),
        Err(TspError::Crypto(_))
    ));
    assert!(matches!(
        SignedMessage::new(vec![], vec![0; 64], vec![0; 31]),
        Err(TspError::Crypto(_))
    ));
    assert!(SignedMessage::new(vec![], vec![0; 64], vec![0; 32]).is_ok());
    assert!(matches!(SignedMessage::from_bytes(b"junk"), Err(TspError::MessageFormat(_))));
}
