use popsigner::error::BanhBaoRingError;
use popsigner::sign::collect_batch_results;
use popsigner::sign::decode_sign_response;
use popsigner::sign::encode_batch_request;
use popsigner::sign::encode_sign_request;
use popsigner::sign::encode_verify_request;
use popsigner::sign::BatchSignatureEntry;
use popsigner::sign::SignResponseBody;
use popsigner::types::BatchSignItem;
use popsigner::types::BatchSignRequest;

fn entry(key_id: u128, signature: &str, error: Option<&str>) -> BatchSignatureEntry {
    BatchSignatureEntry {
        key_id,
        signature: signature.to_string(),
        public_key: format!("pubkey{}", key_id),
        error: error.map(|e| e.to_string()),
    }
}

#[test]
fn test_encode_sign_request_base64() {
    let body = encode_sign_request(b"hello world", false);
    assert_eq!(body.data, "aGVsbG8gd29ybGQ=");
    assert!(!body.prehashed);
}

#[test]
fn test_encode_verify_request_base64() {
    let body = encode_verify_request(b"hello world", &[1, 2, 3], true);
    assert_eq!(body.data, "aGVsbG8gd29ybGQ=");
    assert_eq!(body.signature, "AQID");
    assert!(body.prehashed);
}

#[test]
fn test_decode_sign_response_round_trip() {
    let resp = decode_sign_response(
        7,
        SignResponseBody { signature: "AQID".to_string(), public_key: "pk".to_string() },
    )
    .unwrap();
    assert_eq!(resp.key_id, 7);
    assert_eq!(resp.signature, vec![1, 2, 3]);
    assert_eq!(resp.public_key, "pk");
}

#[test]
fn test_decode_sign_response_bad_base64() {
    let r = decode_sign_response(
        7,
        SignResponseBody { signature: "!!!".to_string(), public_key: "pk".to_string() },
    );
    assert!(matches!(
        r,
        Err(BanhBaoRingError::Decode(m)) if m == "invalid base64 signature"
    ));
}

#[test]
fn test_encode_batch_request_keeps_order_and_flags() {
    let request = BatchSignRequest {
        requests: vec![
            BatchSignItem { key_id: 1, data: b"tx1".to_vec(), prehashed: false },
            BatchSignItem { key_id: 2, data: b"tx2".to_vec(), prehashed: true },
        ],
    };
    let wire = encode_batch_request(&request);
    assert_eq!(wire.len(), 2);
    assert_eq!(wire[0].key_id, 1);
    assert_eq!(wire[0].data, "dHgx");
    assert!(!wire[0].prehashed);
    assert_eq!(wire[1].key_id, 2);
    assert_eq!(wire[1].data, "dHgy");
    assert!(wire[1].prehashed);
}

#[test]
fn test_batch_two_of_four_fail_returns_the_two_successes() {
    let signatures = vec![
        entry(1, "AQID", None),
        entry(2, "", Some("key disabled")),
        entry(3, "BAUG", None),
        entry(4, "", Some("key disabled")),
    ];
    let results = collect_batch_results(4, signatures).unwrap();
    assert_eq!(results.len(), 2);
    assert_eq!(results[0].key_id, 1);
    assert_eq!(results[0].signature, vec![1, 2, 3]);
    assert_eq!(results[0].public_key, "pubkey1");
    assert_eq!(results[1].key_id, 3);
    assert_eq!(results[1].signature, vec![4, 5, 6]);
}

#[test]
fn test_batch_all_four_fail_is_an_error() {
    let signatures = vec![
        entry(1, "", Some("e")),
        entry(2, "", Some("e")),
        entry(3, "", Some("e")),
        entry(4, "", Some("e")),
    ];
    let r = collect_batch_results(4, signatures);
    assert!(matches!(
        r,
        Err(BanhBaoRingError::BatchPartialFailure { failed: 4, total: 4 })
    ));
}

#[test]
fn test_batch_all_succeed() {
    let signatures = vec![entry(1, "AQID", None), entry(2, "BAUG", None)];
    let results = collect_batch_results(2, signatures).unwrap();
    assert_eq!(results.len(), 2);
}

#[test]
fn test_batch_empty_response() {
    let results = collect_batch_results(0, vec![]).unwrap();
    assert!(results.is_empty());
}

#[test]
fn test_batch_bad_signature_is_a_decode_error() {
    let signatures = vec![entry(1, "not base64 at all!", None)];
    let r = collect_batch_results(1, signatures);
    assert!(matches!(
        r,
        Err(BanhBaoRingError::Decode(m)) if m == "invalid base64 signature"
    ));
}

#[test]
fn test_batch_matching_is_by_key_identifier() {
    // The remote side may reorder entries; results carry their own key ids.
    let signatures = vec![entry(9, "AQID", None), entry(3, "BAUG", None)];
    let results = collect_batch_results(2, signatures).unwrap();
    assert_eq!(results[0].key_id, 9);
    assert_eq!(results[1].key_id, 3);
}
