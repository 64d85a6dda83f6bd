use popsigner::address::derive_celestia_address;
use popsigner::error::BanhBaoRingError;
use popsigner::error::SignerError;
use popsigner::signer::POPSignerSigner;
use popsigner::types::Key;

fn key_record(public_key_hex: &str) -> Key {
    Key {
        id: 1,
        name: "my-key".to_string(),
        namespace_id: 2,
        public_key: public_key_hex.to_string(),
        address: String::new(),
        algorithm: "secp256k1".to_string(),
        exportable: false,
        metadata: None,
        created_at: "2025-01-01T00:00:00Z".to_string(),
    }
}

#[test]
fn test_derive_address_golden_vector() {
    // The address of the all-zero compressed public key is fixed for ever.
    let addr = derive_celestia_address(&[0u8; 33]).unwrap();
    assert_eq!(addr, "celestia1988uvdmz2kncg50wkjcjnmvw4nl69lh0rrwhkh");
    assert!(addr.starts_with("celestia1"));
    assert_eq!(addr.len(), 47);
}

#[test]
fn test_derive_address_deterministic() {
    let pk: Vec<u8> = (0..33).map(|i| (i * 7 + 3) as u8).collect();
    let first = derive_celestia_address(&pk).unwrap();
    let second = derive_celestia_address(&pk).unwrap();
    assert_eq!(first, second);
}

#[test]
fn test_derive_address_rejects_short_key() {
    let r = derive_celestia_address(&[0u8; 32]);
    assert!(matches!(
        r,
        Err(BanhBaoRingError::InvalidRequest(m))
            if m == "invalid public key length: expected 33 bytes, got 32"
    ));
}

#[test]
fn test_derive_address_rejects_long_key() {
    let r = derive_celestia_address(&[0u8; 34]);
    assert!(matches!(
        r,
        Err(BanhBaoRingError::InvalidRequest(m))
            if m == "invalid public key length: expected 33 bytes, got 34"
    ));
}

#[test]
fn test_signer_from_key_builds_identity() {
    let hex33 = "00".repeat(33);
    let signer = POPSignerSigner::from_key(&key_record(&hex33)).unwrap();
    assert_eq!(signer.key_id(), 1);
    assert_eq!(signer.key_name(), "my-key");
    assert_eq!(signer.public_key(), &[0u8; 33][..]);
    assert_eq!(signer.public_key_hex(), hex33);
    assert_eq!(signer.address(), "celestia1988uvdmz2kncg50wkjcjnmvw4nl69lh0rrwhkh");
}

#[test]
fn test_signer_from_key_rejects_bad_hex() {
    let r = POPSignerSigner::from_key(&key_record("zz"));
    assert!(matches!(
        r,
        Err(BanhBaoRingError::Decode(m)) if m == "failed to decode public key"
    ));
}

#[test]
fn test_signer_from_key_rejects_wrong_length() {
    let r = POPSignerSigner::from_key(&key_record(&"00".repeat(32)));
    assert!(matches!(
        r,
        Err(BanhBaoRingError::InvalidRequest(m))
            if m == "invalid public key length: expected 33 bytes, got 32"
    ));
}

#[test]
fn test_sign_digest_rejects_short_digest() {
    let signer = POPSignerSigner::from_key(&key_record(&"00".repeat(33))).unwrap();
    let r = signer.sign_digest_request(&[0u8; 31]);
    assert!(matches!(
        r,
        Err(SignerError::InvalidInput(m)) if m == "digest must be 32 bytes, got 31"
    ));
}

#[test]
fn test_sign_digest_rejects_long_digest() {
    let signer = POPSignerSigner::from_key(&key_record(&"00".repeat(33))).unwrap();
    let r = signer.sign_digest_request(&[0u8; 33]);
    assert!(matches!(
        r,
        Err(SignerError::InvalidInput(m)) if m == "digest must be 32 bytes, got 33"
    ));
}

#[test]
fn test_sign_digest_accepts_exact_digest() {
    let signer = POPSignerSigner::from_key(&key_record(&"00".repeat(33))).unwrap();
    let body = signer.sign_digest_request(&[7u8; 32]).unwrap();
    assert!(body.prehashed);
    assert_eq!(body.data, base64::Engine::encode(&base64::engine::general_purpose::STANDARD, [7u8; 32]));
}

#[test]
fn test_sign_request_not_prehashed() {
    let signer = POPSignerSigner::from_key(&key_record(&"00".repeat(33))).unwrap();
    let body = signer.sign_request(b"hello world");
    assert!(!body.prehashed);
    assert_eq!(body.data, "aGVsbG8gd29ybGQ=");
}

#[test]
fn test_complete_sign_maps_errors() {
    let signer = POPSignerSigner::from_key(&key_record(&"00".repeat(33))).unwrap();
    let mapped = signer.complete_sign(Err(BanhBaoRingError::Unauthorized));
    assert!(matches!(mapped, Err(SignerError::Authentication(_))));

    let ok = signer.complete_sign(Ok(popsigner::types::SignResponse {
        key_id: 1,
        signature: vec![9u8; 64],
        public_key: "aa".to_string(),
    }));
    assert_eq!(ok.unwrap(), vec![9u8; 64]);
}
