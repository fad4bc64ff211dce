use stfx::crypto::aead::{decrypt, encrypt, ChaCha20Poly1305Cipher};
use stfx::crypto::ed25519::{Ed25519Keypair, Ed25519PublicKey};
use stfx::crypto::encoding::{base64url_decode, base64url_encode};
use stfx::crypto::error::{AeadError, CryptoError};
use stfx::crypto::hash::{blake2b256, sha256, Blake2b256Hasher, Sha256Hasher};
use stfx::crypto::random::{bytes, SystemRandomness};
use stfx::crypto::traits::{
    Aead, Hasher, KeyAgreement, KeyPair, NoRandomness, Randomness, Signer, Verifier,
};
use stfx::crypto::x25519::X25519Keypair;

fn unhex(text: &str) -> Vec<u8> {
    let digits: Vec<u8> = text
        .bytes()
        .map(|c| match c {
            b'0'..=b'9' => c - b'0',
            b'a'..=b'f' => c - b'a' + 10,
            _ => panic!("not a hex digit"),
        })
        .collect();
    digits.chunks(2).map(|pair| pair[0] * 16 + pair[1]).collect()
}

fn array32(text: &str) -> [u8; 32] {
    let mut out = [0u8; 32];
    out.copy_from_slice(&unhex(text));
    out
}

#[test]
fn aead_impl_encrypt_decrypt() {
    let key = [42u8; 32];
    let nonce = [1u8; 12];
    let aad = b"additional data";
    let mut data = b"secret message".to_vec();
    let original = data.clone();

    encrypt(&key, &nonce, aad, &mut data).unwrap();
    assert_ne!(data, original);

    decrypt(&key, &nonce, aad, &mut data).unwrap();
    assert_eq!(data, original);
}

#[test]
fn lib_encrypt_decrypt() {
    let key = [1u8; 32];
    let nonce = [2u8; 12];
    let aad = b"additional data";
    let mut data = b"plaintext message".to_vec();
    let original = data.clone();
    encrypt(&key, &nonce, aad, &mut data).unwrap();
    assert_ne!(data, original);
    decrypt(&key, &nonce, aad, &mut data).unwrap();
    assert_eq!(data, original);
}

#[test]
fn lib_trait_based_aead() {
    let cipher = ChaCha20Poly1305Cipher;
    let key = [1u8; 32];
    let nonce = [2u8; 12];
    let aad = b"metadata";

    let mut data = b"secret".to_vec();
    let original = data.clone();

    Aead::encrypt(&cipher, &key, &nonce, aad, &mut data).unwrap();
    assert_ne!(data, original);

    Aead::decrypt(&cipher, &key, &nonce, aad, &mut data).unwrap();
    assert_eq!(data, original);
}

#[test]
fn encrypt_appends_a_sixteen_byte_tag() {
    let key = [7u8; 32];
    let nonce = [9u8; 12];
    let mut data = b"0123456789".to_vec();
    encrypt(&key, &nonce, b"aad", &mut data).unwrap();
    assert_eq!(data.len(), 10 + 16);
}

#[test]
fn decrypt_fails_closed_and_leaves_the_buffer() {
    let key = [7u8; 32];
    let nonce = [9u8; 12];
    let mut data = b"payload".to_vec();
    encrypt(&key, &nonce, b"aad", &mut data).unwrap();
    let sealed = data.clone();

    let mut wrong_aad = sealed.clone();
    assert!(decrypt(&key, &nonce, b"other", &mut wrong_aad).is_err());
    assert_eq!(wrong_aad, sealed);

    let mut wrong_key = sealed.clone();
    assert!(decrypt(&[8u8; 32], &nonce, b"aad", &mut wrong_key).is_err());
    assert_eq!(wrong_key, sealed);

    let mut tampered = sealed.clone();
    tampered[0] ^= 1;
    let before = tampered.clone();
    assert!(decrypt(&key, &nonce, b"aad", &mut tampered).is_err());
    assert_eq!(tampered, before);

    let mut short = vec![1u8, 2, 3];
    assert!(decrypt(&key, &nonce, b"aad", &mut short).is_err());
    assert_eq!(short, vec![1u8, 2, 3]);
}

#[test]
fn aead_error_rendering() {
    assert_eq!(AeadError.to_string(), "AEAD operation failed");
    let general = CryptoError::from(AeadError);
    assert_eq!(general.to_string(), "AEAD operation failed: AEAD operation failed");
}

#[test]
fn ed25519_impl_sign_verify() {
    let kp = Ed25519Keypair::generate().unwrap();
    let msg = b"hello world";
    let sig = Signer::sign(&kp, msg).unwrap();
    Verifier::verify(kp.public_key(), msg, &sig).unwrap();
}

#[test]
fn ed25519_sign_verify() {
    let kp = Ed25519Keypair::generate().unwrap();
    let msg = b"hello world";
    let sig = Signer::sign(&kp, msg).unwrap();
    Verifier::verify(kp.public_key(), msg, &sig).unwrap();
}

#[test]
fn lib_sign_verify() {
    let kp = Ed25519Keypair::generate().unwrap();
    let msg = b"hello world";
    let sig = Signer::sign(&kp, msg).unwrap();
    Verifier::verify(kp.public_key(), msg, &sig).unwrap();
}

#[test]
fn lib_ed25519_sign_verify_integration() {
    let kp = Ed25519Keypair::generate().unwrap();
    let msg = b"hello TSP";
    let sig = Signer::sign(&kp, msg).unwrap();
    Verifier::verify(kp.public_key(), msg, &sig).unwrap();
}

#[test]
fn lib_trait_based_signing() {
    let kp = Ed25519Keypair::generate().unwrap();
    let msg = b"test message";

    let sig = Signer::sign(&kp, msg).unwrap();
    Verifier::verify(kp.public_key(), msg, &sig).unwrap();
}

#[test]
fn keypair_trait_implementation() {
    let kp: Ed25519Keypair = KeyPair::generate().unwrap();
    assert_eq!(kp.public_key_bytes().len(), 32);
    assert_eq!(KeyPair::secret_key_bytes(&kp).len(), 32);
}

#[test]
fn from_secret_key_bytes() {
    let kp1 = Ed25519Keypair::generate().unwrap();
    let sk_bytes = kp1.secret_key_bytes();
    let kp2 = Ed25519Keypair::from_secret_key_bytes(sk_bytes).unwrap();
    assert_eq!(kp1.public_key_bytes(), kp2.public_key_bytes());
}

#[test]
fn from_secret_key_bytes_invalid_length() {
    let result = Ed25519Keypair::from_secret_key_bytes(&[0u8; 16]);
    assert!(matches!(result, Err(CryptoError::InvalidSecretKeyLength { .. })));
}

#[test]
fn from_secret_key_bytes_reports_both_lengths() {
    match Ed25519Keypair::from_secret_key_bytes(&[0u8; 33]) {
        Err(CryptoError::InvalidSecretKeyLength { expected, actual }) => {
            assert_eq!(expected, 32);
            assert_eq!(actual, 33);
        }
        _ => panic!("expected a length error"),
    }
    assert!(Ed25519Keypair::from_secret_key_bytes(&[]).is_err());
}

#[test]
fn ed25519_known_answer() {
    let secret = unhex("9d61b19deffd5a60ba844af492ec2cc44449c5697b326919703bac031cae7f60");
    let kp = Ed25519Keypair::from_secret_key_bytes(&secret).unwrap();
    assert_eq!(
        kp.public_key_bytes(),
        unhex("d75a980182b10ab7d54bfed3c964073a0ee172f3daa62325af021a68f707511a").as_slice()
    );
    assert_eq!(kp.secret_key_bytes(), secret.as_slice());
    let sig = kp.sign(b"").unwrap();
    assert_eq!(
        sig,
        unhex(
            "e5564300c360ac729086e2cc806e828a84877f1eb8e5d974d873e06522490155\
             5fb8821590a33bacc61e39701cf9b46bd25bf5f0595bbe24655141438e7a100b"
        )
    );
    assert!(kp.verify(b"", &sig).is_ok());
}

#[test]
fn ed25519_rejections() {
    let kp = Ed25519Keypair::from_secret_key_bytes(&[3u8; 32]).unwrap();
    let other = Ed25519Keypair::from_secret_key_bytes(&[4u8; 32]).unwrap();
    let sig = kp.sign(b"message").unwrap();
    assert_eq!(sig.len(), 64);
    assert!(matches!(kp.verify(b"another", &sig), Err(CryptoError::VerificationFailed)));
    assert!(matches!(other.verify(b"message", &sig), Err(CryptoError::VerificationFailed)));
    assert!(matches!(kp.verify(b"message", &sig[..63]), Err(CryptoError::InvalidInput(_))));
    let mut bad = sig.clone();
    bad[5] ^= 0x40;
    assert!(kp.verify(b"message", &bad).is_err());
}

#[test]
fn ed25519_public_key_alone_verifies() {
    let kp = Ed25519Keypair::from_secret_key_bytes(&[5u8; 32]).unwrap();
    let sig = kp.sign(b"detached").unwrap();
    let public = Ed25519PublicKey::from_bytes(kp.public_key().to_bytes());
    assert_eq!(public.as_bytes(), kp.public_key().as_bytes());
    assert!(public.verify(b"detached", &sig).is_ok());
    assert!(public.verify(b"attached", &sig).is_err());
}

#[test]
fn x25519_shared_secret() {
    let alice = X25519Keypair::generate().unwrap();
    let bob = X25519Keypair::generate().unwrap();

    let shared_a = alice.diffie_hellman(bob.public_key());
    let shared_b = bob.diffie_hellman(alice.public_key());

    assert_eq!(shared_a, shared_b);
}

#[test]
fn lib_shared_secret() {
    let alice = X25519Keypair::generate().unwrap();
    let bob = X25519Keypair::generate().unwrap();
    let shared_a = alice.diffie_hellman(bob.public_key());
    let shared_b = bob.diffie_hellman(alice.public_key());
    assert_eq!(shared_a, shared_b);
}

#[test]
fn lib_trait_based_key_agreement() {
    let alice = X25519Keypair::generate().unwrap();
    let bob = X25519Keypair::generate().unwrap();

    let shared_a = KeyAgreement::diffie_hellman(&alice, bob.public_key());
    let shared_b = KeyAgreement::diffie_hellman(&bob, alice.public_key());
    assert_eq!(shared_a, shared_b);
}

#[test]
fn x25519_known_answer() {
    let alice = X25519Keypair::from_secret(array32(
        "77076d0a7318a57d3c16c17251b26645df4c2f87ebc0992ab177fba51db92c2a",
    ));
    let bob = X25519Keypair::from_secret(array32(
        "5dab087e624a8a4b79e17f8b83800ee66f3bb1292618b6fd1c2f8b27ff88e0eb",
    ));
    assert_eq!(
        alice.public_key(),
        &array32("8520f0098930a754748b7ddcb43ef75a0dbf3a0d26381af4eba4a98eaa9b4e6a")
    );
    assert_eq!(
        bob.public_key(),
        &array32("de9edb7d7b7dc1b4d35b61c2ece435373f8343c85b78674dadfc7e146f882b4f")
    );
    let shared = array32("4a5d9d5ba4ce2de1728e3bf480350f25e07e21c947d19e3376f09b3c1e161742");
    assert_eq!(alice.diffie_hellman(bob.public_key()), shared);
    assert_eq!(bob.diffie_hellman(alice.public_key()), shared);
}

#[test]
fn lib_trait_based_hashing() {
    let sha = Sha256Hasher;
    let blake = Blake2b256Hasher;

    let data = b"test data";
    assert_eq!(Hasher::hash(&sha, data).len(), 32);
    assert_eq!(Hasher::hash(&blake, data).len(), 32);
}

#[test]
fn blake2b256_blake2b256_len() {
    let digest = blake2b256(b"test");
    assert_eq!(digest.len(), 32);
}

#[test]
fn mod_sha256_len() {
    let digest = sha256(b"test");
    assert_eq!(digest.len(), 32);
}

#[test]
fn mod_blake2b256_len() {
    let digest = blake2b256(b"test");
    assert_eq!(digest.len(), 32);
}

#[test]
fn sha256_sha256_len() {
    let digest = sha256(b"test");
    assert_eq!(digest.len(), 32);
}

#[test]
fn lib_sha256_len() {
    assert_eq!(sha256(b"abc").len(), 32);
}

#[test]
fn lib_blake2b256_len() {
    assert_eq!(blake2b256(b"abc").len(), 32);
}

#[test]
fn sha256_known_answer() {
    assert_eq!(
        sha256(b"abc").to_vec(),
        unhex("ba7816bf8f01cfea414140de5dae2223b00361a396177a9cb410ff61f20015ad")
    );
    assert_eq!(Sha256Hasher.hash(b"abc"), sha256(b"abc").to_vec());
    assert_eq!(
        sha256(b"").to_vec(),
        unhex("e3b0c44298fc1c149afbf4c8996fb92427ae41e4649b934ca495991b7852b855")
    );
}

#[test]
fn blake2b256_known_answer() {
    assert_eq!(
        blake2b256(b"abc").to_vec(),
        unhex("bddd813c634239723171ef3fee98579b94964e3bb1cb3e427262c8c068d52319")
    );
    assert_eq!(Blake2b256Hasher.hash(b"abc"), blake2b256(b"abc").to_vec());
    assert_ne!(blake2b256(b"abc"), sha256(b"abc"));
}

#[test]
fn encoding_roundtrip() {
    let data = b"hello world";
    let encoded = base64url_encode(data);
    let decoded = base64url_decode(&encoded).unwrap();
    assert_eq!(decoded, data);
}

#[test]
fn lib_roundtrip() {
    let data = b"stfx";
    let enc = base64url_encode(data);
    let dec = base64url_decode(&enc).unwrap();
    assert_eq!(dec, data);
}

#[test]
fn base64url_known_answers() {
    assert_eq!(base64url_encode(b"hello world"), "aGVsbG8gd29ybGQ");
    assert_eq!(base64url_encode(&[0xfb, 0xff]), "-_8");
    assert_eq!(base64url_encode(b""), "");
    assert_eq!(base64url_decode("-_8").unwrap(), vec![0xfb, 0xff]);
    assert!(base64url_decode("+/8").is_err());
    assert!(base64url_decode("aGVsbG8gd29ybGQ=").is_err());
}

#[test]
fn random_bytes() {
    let a = bytes(32).unwrap();
    let b = bytes(32).unwrap();
    assert_eq!(a.len(), 32);
    assert_eq!(b.len(), 32);
    assert_ne!(a, b); // extremely unlikely to be equal
}

#[test]
fn random_bytes_of_any_length() {
    assert_eq!(bytes(0).unwrap().len(), 0);
    assert_eq!(bytes(1).unwrap().len(), 1);
    assert_eq!(bytes(1000).unwrap().len(), 1000);
}

#[test]
fn randomness_sources() {
    let mut system = SystemRandomness;
    assert_eq!(system.fill_bytes(20).unwrap().len(), 20);
    let a = system.gen_32_bytes().unwrap();
    let b = system.gen_32_bytes().unwrap();
    assert_ne!(a, b);

    let c: [u8; 16] = system.gen_bytes().unwrap();
    let d: [u8; 16] = system.gen_bytes().unwrap();
    assert_ne!(c, d);
    let empty: [u8; 0] = system.gen_bytes().unwrap();
    assert_eq!(empty.len(), 0);

    let mut none = NoRandomness;
    assert!(matches!(none.fill_bytes(4), Err(CryptoError::RandomnessDisabled)));
    assert!(matches!(none.gen_32_bytes(), Err(CryptoError::RandomnessDisabled)));
    assert!(matches!(none.gen_bytes::<8>(), Err(CryptoError::RandomnessDisabled)));
}

#[test]
fn crypto_error_rendering() {
    assert_eq!(
        CryptoError::InvalidSecretKeyLength { expected: 32, actual: 16 }.to_string(),
        "Invalid secret key length (expected 32, got 16)"
    );
    assert_eq!(
        CryptoError::InvalidPublicKeyLength { expected: 32, actual: 0 }.to_string(),
        "Invalid public key length (expected 32, got 0)"
    );
    assert_eq!(
        CryptoError::UnsupportedMulticodec(0xed).to_string(),
        "Unsupported or unknown multicodec code: 0xed"
    );
    assert_eq!(
        CryptoError::UnsupportedMulticodec(0).to_string(),
        "Unsupported or unknown multicodec code: 0x0"
    );
    assert_eq!(
        CryptoError::UnsupportedMulticodec(u64::MAX).to_string(),
        "Unsupported or unknown multicodec code: 0xffffffffffffffff"
    );
    assert_eq!(CryptoError::VerificationFailed.to_string(), "Signature verification failed");
    assert_eq!(CryptoError::invalid_input("bad").to_string(), "Invalid input: bad");
    assert_eq!(CryptoError::Internal("x".into()).to_string(), "Internal crypto error: x");
    assert_eq!(CryptoError::KeyGeneration("x".into()).to_string(), "Key generation failed: x");
    assert_eq!(CryptoError::Signing("x".into()).to_string(), "Signing failed: x");
    assert_eq!(CryptoError::Hashing("x".into()).to_string(), "Hashing failed: x");
    assert_eq!(CryptoError::Aead("x".into()).to_string(), "AEAD operation failed: x");
    assert_eq!(CryptoError::KeyAgreement("x".into()).to_string(), "Key agreement failed: x");
    assert_eq!(CryptoError::Multibase("x".into()).to_string(), "Multibase error: x");
    assert_eq!(CryptoError::Serialization("x".into()).to_string(), "Serialization error: x");
    assert_eq!(
        CryptoError::RandomnessFailure.to_string(),
        "Failed to acquire secure randomness"
    );
}

#[test]
fn can_call_crypto() {
    assert_eq!(stfx::name(), "stfx");
    assert_eq!(sha256(b"").len(), 32);
}

#[test]
fn numbers_as_text() {
    assert_eq!(stfx::text::decimal(0), "0");
    assert_eq!(stfx::text::decimal(9), "9");
    assert_eq!(stfx::text::decimal(10), "10");
    assert_eq!(stfx::text::decimal(1234567890), "1234567890");
    assert_eq!(stfx::text::decimal(u64::MAX), "18446744073709551615");
    assert_eq!(stfx::text::prefixed_hex(255), "0xff");
    assert_eq!(stfx::text::prefixed_hex(4096), "0x1000");
}

#[test]
fn error_conversions() {
    assert!(matches!(CryptoError::from("bad"), CryptoError::InvalidInput(m) if m == "bad"));
    assert!(matches!(
        CryptoError::from("bad".to_string()),
        CryptoError::InvalidInput(m) if m == "bad"
    ));
    let from_crypto = stfx::tsp::error::TspError::from(CryptoError::VerificationFailed);
    assert_eq!(from_crypto.to_string(), "Crypto error: Signature verification failed");
    let from_vid =
        stfx::tsp::error::TspError::from(stfx::vid::error::L1Error::InvalidVid("x".to_string()));
    assert_eq!(from_vid.to_string(), "VID error: Invalid VID: x");
}

#[test]
fn trait_based_aead() {
    let cipher = ChaCha20Poly1305Cipher;
    let key = [1u8; 32];
    let nonce = [2u8; 12];
    let aad = b"metadata";

    let mut data = b"secret".to_vec();
    let original = data.clone();

    Aead::encrypt(&cipher, &key, &nonce, aad, &mut data).unwrap();
    assert_ne!(data, original);

    Aead::decrypt(&cipher, &key, &nonce, aad, &mut data).unwrap();
    assert_eq!(data, original);
}

#[test]
fn sign_verify() {
    let kp = Ed25519Keypair::generate().unwrap();
    let msg = b"hello world";
    let sig = Signer::sign(&kp, msg).unwrap();
    Verifier::verify(kp.public_key(), msg, &sig).unwrap();
}

#[test]
fn ed25519_sign_verify_integration() {
    let kp = Ed25519Keypair::generate().unwrap();
    let msg = b"hello TSP";
    let sig = Signer::sign(&kp, msg).unwrap();
    Verifier::verify(kp.public_key(), msg, &sig).unwrap();
}

#[test]
fn trait_based_signing() {
    let kp = Ed25519Keypair::generate().unwrap();
    let msg = b"test message";

    let sig = Signer::sign(&kp, msg).unwrap();
    Verifier::verify(kp.public_key(), msg, &sig).unwrap();
}

#[test]
fn trait_based_hashing() {
    let sha = Sha256Hasher;
    let blake = Blake2b256Hasher;

    let data = b"test data";
    assert_eq!(Hasher::hash(&sha, data).len(), 32);
    assert_eq!(Hasher::hash(&blake, data).len(), 32);
}

#[test]
fn trait_based_key_agreement() {
    let alice = X25519Keypair::generate().unwrap();
    let bob = X25519Keypair::generate().unwrap();

    let shared_a = KeyAgreement::diffie_hellman(&alice, bob.public_key());
    let shared_b = KeyAgreement::diffie_hellman(&bob, alice.public_key());
    assert_eq!(shared_a, shared_b);
}
