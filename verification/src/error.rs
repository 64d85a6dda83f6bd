//! Error types: the low-level service error, the signer error taxonomy, the
//! client error, and the total mapping between them.
//!
//! None of these types carries a transport handle; a transport failure is
//! recorded as its rendered text.  Every type exposes a `message` method whose
//! exact wording is pinned by a spec function.

use vstd::prelude::*;
use vstd::string::*;

use crate::decimal::spec_decimal;
use crate::decimal::u64_to_decimal;

verus! {

/// Error reported by the remote key-custody service or its transport.
#[derive(Debug)]
pub enum BanhBaoRingError {
    /// A structured error from the service API.
    Api { code: String, message: String, status_code: u16 },
    /// A transport-level failure, carrying its rendered description.
    Http(String),
    /// Malformed data returned by the service.
    Decode(String),
    /// The credential was rejected.
    Unauthorized,
    /// The caller was throttled.
    RateLimited,
    /// A quota was exhausted.
    QuotaExceeded(String),
    /// No key with the given identifier or name.
    KeyNotFound(String),
    /// No such namespace.
    NamespaceNotFound(String),
    /// No such organization.
    OrgNotFound(String),
    /// The request was rejected before reaching the service.
    InvalidRequest(String),
    /// The signing operation itself failed.
    SigningError(String),
    /// Every item of a batch failed.
    BatchPartialFailure { failed: usize, total: usize },
}

/// The rendered description of a [`BanhBaoRingError`].
pub open spec fn spec_bbr_message(e: BanhBaoRingError) -> Seq<char> {
    match e {
        BanhBaoRingError::Api { code, message, status_code } => "API error ("@ + spec_decimal(
            status_code as nat,
        ) + "): ["@ + code@ + "] "@ + message@,
        BanhBaoRingError::Http(m) => "HTTP error: "@ + m@,
        BanhBaoRingError::Decode(m) => "Decode error: "@ + m@,
        BanhBaoRingError::Unauthorized => "Unauthorized: invalid API key"@,
        BanhBaoRingError::RateLimited => "Rate limit exceeded"@,
        BanhBaoRingError::QuotaExceeded(m) => "Quota exceeded: "@ + m@,
        BanhBaoRingError::KeyNotFound(m) => "Key not found: "@ + m@,
        BanhBaoRingError::NamespaceNotFound(m) => "Namespace not found: "@ + m@,
        BanhBaoRingError::OrgNotFound(m) => "Organization not found: "@ + m@,
        BanhBaoRingError::InvalidRequest(m) => "Invalid request: "@ + m@,
        BanhBaoRingError::SigningError(m) => "Signing error: "@ + m@,
        BanhBaoRingError::BatchPartialFailure { failed, total } => "Batch operation had "@
            + spec_decimal(failed as nat) + " failures out of "@ + spec_decimal(total as nat)
            + " requests"@,
    }
}

/// Whether retrying the failed call can help.
pub open spec fn spec_is_retryable(e: BanhBaoRingError) -> bool {
    match e {
        BanhBaoRingError::RateLimited => true,
        BanhBaoRingError::Http(_) => true,
        BanhBaoRingError::Api { status_code, .. } => status_code >= 500,
        _ => false,
    }
}

/// Whether the failure was a credential problem.
pub open spec fn spec_is_auth_error(e: BanhBaoRingError) -> bool {
    match e {
        BanhBaoRingError::Unauthorized => true,
        BanhBaoRingError::Api { status_code, .. } => status_code == 401 || status_code == 403,
        _ => false,
    }
}

/// The HTTP status associated with the error, where one is known.
pub open spec fn spec_status_code(e: BanhBaoRingError) -> Option<u16> {
    match e {
        BanhBaoRingError::Api { status_code, .. } => Some(status_code),
        BanhBaoRingError::Unauthorized => Some(401u16),
        BanhBaoRingError::RateLimited => Some(429u16),
        _ => None,
    }
}

impl BanhBaoRingError {
    /// Renders the error as text.
    pub fn message(&self) -> (s: String)
        ensures
            s@ == spec_bbr_message(*self),
    {
        match self {
            BanhBaoRingError::Api { code, message, status_code } => {
                let mut s = String::new();
                s.append("API error (");
                s.append(u64_to_decimal(*status_code as u64).as_str());
                s.append("): [");
                s.append(code.as_str());
                s.append("] ");
                s.append(message.as_str());
                s
            },
            BanhBaoRingError::Http(m) => {
                let mut s = String::new();
                s.append("HTTP error: ");
                s.append(m.as_str());
                s
            },
            BanhBaoRingError::Decode(m) => {
                let mut s = String::new();
                s.append("Decode error: ");
                s.append(m.as_str());
                s
            },
            BanhBaoRingError::Unauthorized => String::from_str("Unauthorized: invalid API key"),
            BanhBaoRingError::RateLimited => String::from_str("Rate limit exceeded"),
            BanhBaoRingError::QuotaExceeded(m) => {
                let mut s = String::new();
                s.append("Quota exceeded: ");
                s.append(m.as_str());
                s
            },
            BanhBaoRingError::KeyNotFound(m) => {
                let mut s = String::new();
                s.append("Key not found: ");
                s.append(m.as_str());
                s
            },
            BanhBaoRingError::NamespaceNotFound(m) => {
                let mut s = String::new();
                s.append("Namespace not found: ");
                s.append(m.as_str());
                s
            },
            BanhBaoRingError::OrgNotFound(m) => {
                let mut s = String::new();
                s.append("Organization not found: ");
                s.append(m.as_str());
                s
            },
            BanhBaoRingError::InvalidRequest(m) => {
                let mut s = String::new();
                s.append("Invalid request: ");
                s.append(m.as_str());
                s
            },
            BanhBaoRingError::SigningError(m) => {
                let mut s = String::new();
                s.append("Signing error: ");
                s.append(m.as_str());
                s
            },
            BanhBaoRingError::BatchPartialFailure { failed, total } => {
                let mut s = String::new();
                s.append("Batch operation had ");
                s.append(u64_to_decimal(*failed as u64).as_str());
                s.append(" failures out of ");
                s.append(u64_to_decimal(*total as u64).as_str());
                s.append(" requests");
                s
            },
        }
    }

    /// Whether retrying the failed call can help: throttling, transport
    /// failures and server-side errors are retryable, the rest are not.
    pub fn is_retryable(&self) -> (r: bool)
        ensures
            r == spec_is_retryable(*self),
    {
        match self {
            BanhBaoRingError::RateLimited => true,
            BanhBaoRingError::Http(_) => true,
            BanhBaoRingError::Api { status_code, .. } => *status_code >= 500,
            _ => false,
        }
    }

    /// Whether the failure was a credential problem.
    pub fn is_auth_error(&self) -> (r: bool)
        ensures
            r == spec_is_auth_error(*self),
    {
        match self {
            BanhBaoRingError::Unauthorized => true,
            BanhBaoRingError::Api { status_code, .. } => *status_code == 401 || *status_code
                == 403,
            _ => false,
        }
    }

    /// The HTTP status associated with the error, where one is known.
    pub fn status_code(&self) -> (r: Option<u16>)
        ensures
            r == spec_status_code(*self),
    {
        match self {
            BanhBaoRingError::Api { status_code, .. } => Some(*status_code),
            BanhBaoRingError::Unauthorized => Some(401),
            BanhBaoRingError::RateLimited => Some(429),
            _ => None,
        }
    }
}

/// Error surface of a [`crate::signer`] operation.
#[derive(Debug)]
pub enum SignerError {
    Network(String),
    Authentication(String),
    KeyNotFound(String),
    SigningFailed(String),
    RateLimited,
    InvalidInput(String),
    Config(String),
    Rpc(String),
    Grpc(String),
}

/// The rendered description of a [`SignerError`].
pub open spec fn spec_signer_message(e: SignerError) -> Seq<char> {
    match e {
        SignerError::Network(m) => "network error: "@ + m@,
        SignerError::Authentication(m) => "authentication error: "@ + m@,
        SignerError::KeyNotFound(m) => "key not found: "@ + m@,
        SignerError::SigningFailed(m) => "signing failed: "@ + m@,
        SignerError::RateLimited => "rate limit exceeded"@,
        SignerError::InvalidInput(m) => "invalid input: "@ + m@,
        SignerError::Config(m) => "configuration error: "@ + m@,
        SignerError::Rpc(m) => "RPC error: "@ + m@,
        SignerError::Grpc(m) => "gRPC error: "@ + m@,
    }
}

/// The total mapping from service errors to signer error kinds: unauthorized
/// becomes `Authentication`, throttling stays `RateLimited`, a missing key
/// stays `KeyNotFound`, a transport failure becomes `Network`, and every
/// other service-reported failure becomes `SigningFailed` carrying the
/// service error's own message.  Every service error maps to some kind.
pub open spec fn maps_to_signer_error(err: BanhBaoRingError, r: SignerError) -> bool {
    match err {
        BanhBaoRingError::Unauthorized => r matches SignerError::Authentication(m) && m@
            == "invalid API key"@,
        BanhBaoRingError::RateLimited => r is RateLimited,
        BanhBaoRingError::KeyNotFound(k) => r matches SignerError::KeyNotFound(m) && m@ == k@,
        BanhBaoRingError::Http(h) => r matches SignerError::Network(m) && m@ == h@,
        BanhBaoRingError::SigningError(s) => r matches SignerError::SigningFailed(m) && m@ == s@,
        BanhBaoRingError::Api { message, .. } => r matches SignerError::SigningFailed(m) && m@
            == message@,
        _ => r matches SignerError::SigningFailed(m) && m@ == spec_bbr_message(err),
    }
}

impl SignerError {
    /// Renders the error as text.
    pub fn message(&self) -> (s: String)
        ensures
            s@ == spec_signer_message(*self),
    {
        let mut s = String::new();
        match self {
            SignerError::Network(m) => {
                s.append("network error: ");
                s.append(m.as_str());
            },
            SignerError::Authentication(m) => {
                s.append("authentication error: ");
                s.append(m.as_str());
            },
            SignerError::KeyNotFound(m) => {
                s.append("key not found: ");
                s.append(m.as_str());
            },
            SignerError::SigningFailed(m) => {
                s.append("signing failed: ");
                s.append(m.as_str());
            },
            SignerError::RateLimited => {
                s.append("rate limit exceeded");
            },
            SignerError::InvalidInput(m) => {
                s.append("invalid input: ");
                s.append(m.as_str());
            },
            SignerError::Config(m) => {
                s.append("configuration error: ");
                s.append(m.as_str());
            },
            SignerError::Rpc(m) => {
                s.append("RPC error: ");
                s.append(m.as_str());
            },
            SignerError::Grpc(m) => {
                s.append("gRPC error: ");
                s.append(m.as_str());
            },
        }
        s
    }

    /// Maps a service error to exactly one signer error kind: unauthorized
    /// becomes `Authentication`, throttling stays `RateLimited`, a missing
    /// key stays `KeyNotFound`, a transport failure becomes `Network`, and
    /// every other service-reported failure becomes `SigningFailed`.  The
    /// mapping is total: no service error is dropped or left unclassified.
    pub fn from_api(err: BanhBaoRingError) -> (r: SignerError)
        ensures
            maps_to_signer_error(err, r),
    {
        match err {
            BanhBaoRingError::Unauthorized => SignerError::Authentication(
                String::from_str("invalid API key"),
            ),
            BanhBaoRingError::RateLimited => SignerError::RateLimited,
            BanhBaoRingError::KeyNotFound(msg) => SignerError::KeyNotFound(msg),
            BanhBaoRingError::Http(e) => SignerError::Network(e),
            BanhBaoRingError::SigningError(msg) => SignerError::SigningFailed(msg),
            BanhBaoRingError::Api { message, .. } => SignerError::SigningFailed(message),
            other => SignerError::SigningFailed(other.message()),
        }
    }
}

/// Error surface of the Celestia-facing client.
#[derive(Debug)]
pub enum ClientError {
    Config(String),
    Signer(SignerError),
    Rpc(String),
    Grpc(String),
    InvalidInput(String),
    NotImplemented(String),
}

/// The rendered description of a [`ClientError`].
pub open spec fn spec_client_message(e: ClientError) -> Seq<char> {
    match e {
        ClientError::Config(m) => "config error: "@ + m@,
        ClientError::Signer(err) => "signer error: "@ + spec_signer_message(err),
        ClientError::Rpc(m) => "RPC error: "@ + m@,
        ClientError::Grpc(m) => "gRPC error: "@ + m@,
        ClientError::InvalidInput(m) => "invalid input: "@ + m@,
        ClientError::NotImplemented(m) => "not implemented: "@ + m@,
    }
}

impl ClientError {
    /// Renders the error as text.
    pub fn message(&self) -> (s: String)
        ensures
            s@ == spec_client_message(*self),
    {
        let mut s = String::new();
        match self {
            ClientError::Config(m) => {
                s.append("config error: ");
                s.append(m.as_str());
            },
            ClientError::Signer(err) => {
                s.append("signer error: ");
                s.append(err.message().as_str());
            },
            ClientError::Rpc(m) => {
                s.append("RPC error: ");
                s.append(m.as_str());
            },
            ClientError::Grpc(m) => {
                s.append("gRPC error: ");
                s.append(m.as_str());
            },
            ClientError::InvalidInput(m) => {
                s.append("invalid input: ");
                s.append(m.as_str());
            },
            ClientError::NotImplemented(m) => {
                s.append("not implemented: ");
                s.append(m.as_str());
            },
        }
        s
    }
}

/// A structured error body returned by the service alongside a failing
/// HTTP status: a machine-readable code and a human-readable message.
pub struct ApiErrorBody {
    pub code: String,
    pub message: String,
}

/// Classifies a failing service response: credential rejections and
/// throttling are recognised from the status alone, an exhausted quota from
/// the error code, and everything else keeps its code, message and status.
/// A response whose body could not be parsed is reported with the code
/// `unknown`.
pub fn classify_error_response(status: u16, body: Option<ApiErrorBody>) -> (e: BanhBaoRingError)
    ensures
        status == 401 ==> e is Unauthorized,
        status == 429 ==> e is RateLimited,
        status != 401 && status != 429 ==> match body {
            Some(b) => {
                if b.code@ == "quota_exceeded"@ {
                    e matches BanhBaoRingError::QuotaExceeded(m) && m@ == b.message@
                } else {
                    e matches BanhBaoRingError::Api { code, message, status_code } && code@
                        == b.code@ && message@ == b.message@ && status_code == status
                }
            },
            None => e matches BanhBaoRingError::Api { code, message, status_code } && code@
                == "unknown"@ && message@ == "Unknown error"@ && status_code == status,
        },
{
    if status == 401 {
        return BanhBaoRingError::Unauthorized;
    }
    if status == 429 {
        return BanhBaoRingError::RateLimited;
    }
    match body {
        Some(b) => {
            if b.code == String::from_str("quota_exceeded") {
                BanhBaoRingError::QuotaExceeded(b.message)
            } else {
                BanhBaoRingError::Api { code: b.code, message: b.message, status_code: status }
            }
        },
        None => BanhBaoRingError::Api {
            code: String::from_str("unknown"),
            message: String::from_str("Unknown error"),
            status_code: status,
        },
    }
}

} // verus!
