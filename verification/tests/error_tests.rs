use popsigner::error::classify_error_response;
use popsigner::error::ApiErrorBody;
use popsigner::error::BanhBaoRingError;
use popsigner::error::ClientError;
use popsigner::error::SignerError;

#[test]
fn test_signer_error_display() {
    let err = SignerError::KeyNotFound("my-key".to_string());
    assert_eq!(err.message(), "key not found: my-key");
}

#[test]
fn test_error_display() {
    let err = BanhBaoRingError::Api {
        code: "key_not_found".to_string(),
        message: "Key does not exist".to_string(),
        status_code: 404,
    };
    assert_eq!(err.message(), "API error (404): [key_not_found] Key does not exist");
}

#[test]
fn test_is_retryable() {
    let rate_limited = BanhBaoRingError::RateLimited;
    assert!(rate_limited.is_retryable());

    let server_error = BanhBaoRingError::Api {
        code: "internal".to_string(),
        message: "Internal server error".to_string(),
        status_code: 500,
    };
    assert!(server_error.is_retryable());

    let not_found = BanhBaoRingError::Api {
        code: "not_found".to_string(),
        message: "Not found".to_string(),
        status_code: 404,
    };
    assert!(!not_found.is_retryable());
}

#[test]
fn test_is_auth_error() {
    let unauthorized = BanhBaoRingError::Unauthorized;
    assert!(unauthorized.is_auth_error());

    let api_401 = BanhBaoRingError::Api {
        code: "unauthorized".to_string(),
        message: "Invalid API key".to_string(),
        status_code: 401,
    };
    assert!(api_401.is_auth_error());
}

#[test]
fn test_status_code() {
    let err = BanhBaoRingError::Api {
        code: "test".to_string(),
        message: "Test".to_string(),
        status_code: 500,
    };
    assert_eq!(err.status_code(), Some(500));

    let decode_err = BanhBaoRingError::Decode("bad base64".to_string());
    assert_eq!(decode_err.status_code(), None);
}

#[test]
fn test_batch_partial_failure_message() {
    let err = BanhBaoRingError::BatchPartialFailure { failed: 4, total: 4 };
    assert_eq!(err.message(), "Batch operation had 4 failures out of 4 requests");
}

#[test]
fn test_error_mapping_unauthorized() {
    let mapped = SignerError::from_api(BanhBaoRingError::Unauthorized);
    assert!(matches!(mapped, SignerError::Authentication(m) if m == "invalid API key"));
}

#[test]
fn test_error_mapping_rate_limited() {
    let mapped = SignerError::from_api(BanhBaoRingError::RateLimited);
    assert!(matches!(mapped, SignerError::RateLimited));
}

#[test]
fn test_error_mapping_key_not_found() {
    let mapped = SignerError::from_api(BanhBaoRingError::KeyNotFound("worker-1".to_string()));
    assert!(matches!(mapped, SignerError::KeyNotFound(m) if m == "worker-1"));
}

#[test]
fn test_error_mapping_transport_failure() {
    let mapped = SignerError::from_api(BanhBaoRingError::Http("connection refused".to_string()));
    assert!(matches!(mapped, SignerError::Network(m) if m == "connection refused"));
}

#[test]
fn test_error_mapping_signing_error() {
    let mapped = SignerError::from_api(BanhBaoRingError::SigningError("hsm busy".to_string()));
    assert!(matches!(mapped, SignerError::SigningFailed(m) if m == "hsm busy"));
}

#[test]
fn test_error_mapping_generic_api_failure() {
    let mapped = SignerError::from_api(BanhBaoRingError::Api {
        code: "internal".to_string(),
        message: "Internal server error".to_string(),
        status_code: 500,
    });
    assert!(matches!(mapped, SignerError::SigningFailed(m) if m == "Internal server error"));
}

#[test]
fn test_error_mapping_other_kinds_keep_their_message() {
    let mapped = SignerError::from_api(BanhBaoRingError::QuotaExceeded("10 keys".to_string()));
    assert!(matches!(mapped, SignerError::SigningFailed(m) if m == "Quota exceeded: 10 keys"));

    let mapped = SignerError::from_api(BanhBaoRingError::Decode("bad hex".to_string()));
    assert!(matches!(mapped, SignerError::SigningFailed(m) if m == "Decode error: bad hex"));

    let mapped = SignerError::from_api(BanhBaoRingError::BatchPartialFailure { failed: 2, total: 3 });
    assert!(matches!(
        mapped,
        SignerError::SigningFailed(m) if m == "Batch operation had 2 failures out of 3 requests"
    ));
}

#[test]
fn test_classify_error_response() {
    assert!(matches!(classify_error_response(401, None), BanhBaoRingError::Unauthorized));
    assert!(matches!(classify_error_response(429, None), BanhBaoRingError::RateLimited));

    let quota = classify_error_response(
        402,
        Some(ApiErrorBody { code: "quota_exceeded".to_string(), message: "limit".to_string() }),
    );
    assert!(matches!(quota, BanhBaoRingError::QuotaExceeded(m) if m == "limit"));

    let api = classify_error_response(
        404,
        Some(ApiErrorBody { code: "key_not_found".to_string(), message: "gone".to_string() }),
    );
    assert!(matches!(
        api,
        BanhBaoRingError::Api { code, message, status_code: 404 }
            if code == "key_not_found" && message == "gone"
    ));

    let unknown = classify_error_response(500, None);
    assert!(matches!(
        unknown,
        BanhBaoRingError::Api { code, message, status_code: 500 }
            if code == "unknown" && message == "Unknown error"
    ));
}

#[test]
fn test_client_error_message() {
    let err = ClientError::Signer(SignerError::RateLimited);
    assert_eq!(err.message(), "signer error: rate limit exceeded");
}
