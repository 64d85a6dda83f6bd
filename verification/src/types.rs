//! Request and response records exchanged with the key-custody service.
//!
//! Remote key identifiers are carried as their 128-bit values; the wire
//! text form is produced by [`crate::encoding`] where a path needs it.

use std::collections::HashMap;
use vstd::prelude::*;

verus! {

/// A remote cryptographic key.
#[derive(Debug, Clone)]
pub struct Key {
    /// Unique key identifier.
    pub id: u128,
    /// Human-readable key name.
    pub name: String,
    /// Namespace the key belongs to.
    pub namespace_id: u128,
    /// Hex-encoded compressed public key, as reported by the custodian.
    pub public_key: String,
    /// Bech32-encoded address.
    pub address: String,
    /// Key algorithm (e.g. `secp256k1`).
    pub algorithm: String,
    /// Whether the key can be exported.
    pub exportable: bool,
    /// Optional metadata.
    pub metadata: Option<HashMap<String, String>>,
    /// Creation timestamp.
    pub created_at: String,
}

/// Request to create a key.
#[derive(Debug, Clone)]
pub struct CreateKeyRequest {
    /// Key name, unique within its namespace.
    pub name: String,
    /// Namespace for the key.
    pub namespace_id: u128,
    /// Key algorithm; the service default is used when absent.
    pub algorithm: Option<String>,
    /// Whether the key can be exported; defaults to no.
    pub exportable: Option<bool>,
    /// Optional metadata.
    pub metadata: Option<HashMap<String, String>>,
}

impl Default for CreateKeyRequest {
    /// An empty request: no name, the nil namespace, service defaults.
    fn default() -> (d: CreateKeyRequest)
        ensures
            d.name@ == Seq::<char>::empty(),
            d.namespace_id == 0,
            d.algorithm is None,
            d.exportable is None,
            d.metadata is None,
    {
        CreateKeyRequest {
            name: String::new(),
            namespace_id: 0,
            algorithm: None,
            exportable: None,
            metadata: None,
        }
    }
}

/// Request to create several keys at once, named `prefix-1`, `prefix-2`
/// and so on.
#[derive(Debug, Clone)]
pub struct CreateBatchRequest {
    /// Prefix for the key names.
    pub prefix: String,
    /// Number of keys to create.
    pub count: u32,
    /// Namespace for all the keys.
    pub namespace_id: u128,
    /// Whether the keys can be exported; defaults to no.
    pub exportable: Option<bool>,
}

/// Result of one sign operation.
#[derive(Debug, Clone)]
pub struct SignResponse {
    /// Key that signed.
    pub key_id: u128,
    /// Raw signature bytes.
    pub signature: Vec<u8>,
    /// Public key as reported by the service.
    pub public_key: String,
}

/// Request to sign several messages in one round-trip.
#[derive(Debug, Clone)]
pub struct BatchSignRequest {
    /// The individual sign requests.
    pub requests: Vec<BatchSignItem>,
}

/// One item of a batch sign request.
#[derive(Debug, Clone)]
pub struct BatchSignItem {
    /// Key to sign with.
    pub key_id: u128,
    /// Raw data to sign.
    pub data: Vec<u8>,
    /// Whether the data is already a digest.
    pub prehashed: bool,
}

/// An organization.
#[derive(Debug, Clone)]
pub struct Organization {
    /// Organization identifier.
    pub id: u128,
    /// Organization name.
    pub name: String,
    /// URL-friendly slug.
    pub slug: String,
    /// Billing plan.
    pub plan: String,
    /// Creation timestamp.
    pub created_at: String,
}

/// A namespace within an organization.
#[derive(Debug, Clone)]
pub struct Namespace {
    /// Namespace identifier.
    pub id: u128,
    /// Namespace name.
    pub name: String,
    /// Owning organization.
    pub org_id: u128,
    /// Creation timestamp.
    pub created_at: String,
}

/// One audit log entry.
#[derive(Debug, Clone)]
pub struct AuditLog {
    /// Entry identifier.
    pub id: u128,
    /// Event type.
    pub event: String,
    /// Acting user or API key.
    pub actor_id: Option<u128>,
    /// Kind of actor.
    pub actor_type: String,
    /// Kind of resource affected.
    pub resource_type: Option<String>,
    /// Resource affected.
    pub resource_id: Option<u128>,
    /// Additional metadata, as raw JSON text.
    pub metadata: Option<String>,
    /// Timestamp.
    pub created_at: String,
}

/// Filters for listing audit logs.
#[derive(Debug, Clone)]
pub struct ListAuditLogsQuery {
    /// Filter by event type.
    pub event: Option<String>,
    /// Filter by resource type.
    pub resource_type: Option<String>,
    /// Filter by resource identifier.
    pub resource_id: Option<u128>,
    /// Maximum number of results.
    pub limit: Option<u32>,
    /// Offset for pagination.
    pub offset: Option<u32>,
}

impl Default for ListAuditLogsQuery {
    /// No filters at all.
    fn default() -> (d: ListAuditLogsQuery)
        ensures
            d.event is None,
            d.resource_type is None,
            d.resource_id is None,
            d.limit is None,
            d.offset is None,
    {
        ListAuditLogsQuery {
            event: None,
            resource_type: None,
            resource_id: None,
            limit: None,
            offset: None,
        }
    }
}

/// One page of a paginated listing.
#[derive(Debug, Clone)]
pub struct PaginatedResponse<T> {
    /// Items in this page.
    pub items: Vec<T>,
    /// Total number of items.
    pub total: u64,
    /// Current offset.
    pub offset: u64,
    /// Current limit.
    pub limit: u64,
}

} // verus!
