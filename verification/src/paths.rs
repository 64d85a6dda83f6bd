//! Request paths and query strings for the key-custody service, each one
//! pinned to an exact spec-level rendering.

use vstd::prelude::*;
use vstd::string::*;

use crate::decimal::spec_decimal;
use crate::decimal::u64_to_decimal;
use crate::encoding::uuid_text;
use crate::encoding::uuid_to_string;
use crate::types::ListAuditLogsQuery;

verus! {

// ---------------------------------------------------------------------------
// Joining
// ---------------------------------------------------------------------------

/// The first `n` parts joined with `sep` between them.
pub open spec fn spec_join_prefix(parts: Seq<Seq<char>>, sep: Seq<char>, n: int) -> Seq<char>
    decreases n,
{
    if n <= 0 {
        Seq::empty()
    } else if n == 1 {
        parts[0]
    } else {
        spec_join_prefix(parts, sep, n - 1) + sep + parts[n - 1]
    }
}

/// All of `parts` joined with `sep` between them.
pub open spec fn spec_join(parts: Seq<Seq<char>>, sep: Seq<char>) -> Seq<char> {
    spec_join_prefix(parts, sep, parts.len() as int)
}

/// Joins strings with a separator between consecutive entries.
pub fn join_with(parts: &Vec<String>, sep: &str) -> (r: String)
    ensures
        r@ == spec_join(parts@.map_values(|p: String| p@), sep@),
{
    let ghost vparts = parts@.map_values(|p: String| p@);
    let mut r = String::new();
    let mut i: usize = 0;
    while i < parts.len()
        invariant
            i <= parts@.len(),
            vparts == parts@.map_values(|p: String| p@),
            r@ == spec_join_prefix(vparts, sep@, i as int),
        decreases parts@.len() - i,
    {
        if i > 0 {
            r.append(sep);
        }
        r.append(parts[i].as_str());
        i += 1;
    }
    r
}

// ---------------------------------------------------------------------------
// Fixed and keyed paths
// ---------------------------------------------------------------------------

/// The path of one key: `/v1/keys/` followed by the identifier text.
pub open spec fn spec_key_path(id: u128) -> Seq<char> {
    "/v1/keys/"@ + uuid_text(id)
}

/// Builds the path of one key.
pub fn key_path(id: u128) -> (r: String)
    ensures
        r@ == spec_key_path(id),
{
    let mut r = String::new();
    r.append("/v1/keys/");
    r.append(uuid_to_string(id).as_str());
    r
}

/// The key-listing path, with an optional namespace filter.
pub open spec fn spec_keys_list_path(namespace_id: Option<u128>) -> Seq<char> {
    match namespace_id {
        Some(id) => "/v1/keys?namespace_id="@ + uuid_text(id),
        None => "/v1/keys"@,
    }
}

/// Builds the key-listing path.
pub fn keys_list_path(namespace_id: Option<u128>) -> (r: String)
    ensures
        r@ == spec_keys_list_path(namespace_id),
{
    match namespace_id {
        Some(id) => {
            let mut r = String::new();
            r.append("/v1/keys?namespace_id=");
            r.append(uuid_to_string(id).as_str());
            r
        },
        None => String::from_str("/v1/keys"),
    }
}

/// The path for looking a key up by name within a namespace.
pub open spec fn spec_key_by_name_path(namespace_id: u128, name: Seq<char>) -> Seq<char> {
    "/v1/keys/by-name/"@ + uuid_text(namespace_id) + "/"@ + name
}

/// Builds the by-name lookup path.
pub fn key_by_name_path(namespace_id: u128, name: &str) -> (r: String)
    ensures
        r@ == spec_key_by_name_path(namespace_id, name@),
{
    let mut r = String::new();
    r.append("/v1/keys/by-name/");
    r.append(uuid_to_string(namespace_id).as_str());
    r.append("/");
    r.append(name);
    r
}

/// The signing path of one key.
pub open spec fn spec_sign_path(id: u128) -> Seq<char> {
    "/v1/keys/"@ + uuid_text(id) + "/sign"@
}

/// Builds the signing path of one key.
pub fn sign_path(id: u128) -> (r: String)
    ensures
        r@ == spec_sign_path(id),
{
    let mut r = String::new();
    r.append("/v1/keys/");
    r.append(uuid_to_string(id).as_str());
    r.append("/sign");
    r
}

/// The verification path of one key.
pub open spec fn spec_verify_path(id: u128) -> Seq<char> {
    "/v1/keys/"@ + uuid_text(id) + "/verify"@
}

/// Builds the verification path of one key.
pub fn verify_path(id: u128) -> (r: String)
    ensures
        r@ == spec_verify_path(id),
{
    let mut r = String::new();
    r.append("/v1/keys/");
    r.append(uuid_to_string(id).as_str());
    r.append("/verify");
    r
}

/// The path of one namespace.
pub open spec fn spec_namespace_path(id: u128) -> Seq<char> {
    "/v1/namespaces/"@ + uuid_text(id)
}

/// Builds the path of one namespace.
pub fn namespace_path(id: u128) -> (r: String)
    ensures
        r@ == spec_namespace_path(id),
{
    let mut r = String::new();
    r.append("/v1/namespaces/");
    r.append(uuid_to_string(id).as_str());
    r
}

/// The path of one audit log entry.
pub open spec fn spec_audit_log_path(id: u128) -> Seq<char> {
    "/v1/audit/"@ + uuid_text(id)
}

/// Builds the path of one audit log entry.
pub fn audit_log_path(id: u128) -> (r: String)
    ensures
        r@ == spec_audit_log_path(id),
{
    let mut r = String::new();
    r.append("/v1/audit/");
    r.append(uuid_to_string(id).as_str());
    r
}

// ---------------------------------------------------------------------------
// The audit listing query string
// ---------------------------------------------------------------------------

/// The query parameters present in an audit listing, in their fixed order.
pub open spec fn spec_audit_params(q: ListAuditLogsQuery) -> Seq<Seq<char>> {
    let p: Seq<Seq<char>> = Seq::empty();
    let p = match q.event {
        Some(e) => p.push("event="@ + e@),
        None => p,
    };
    let p = match q.resource_type {
        Some(t) => p.push("resource_type="@ + t@),
        None => p,
    };
    let p = match q.resource_id {
        Some(id) => p.push("resource_id="@ + uuid_text(id)),
        None => p,
    };
    let p = match q.limit {
        Some(l) => p.push("limit="@ + spec_decimal(l as nat)),
        None => p,
    };
    match q.offset {
        Some(o) => p.push("offset="@ + spec_decimal(o as nat)),
        None => p,
    }
}

/// The audit listing path for an optional set of filters: `/v1/audit`,
/// with a `?`-prefixed `&`-joined parameter list when any filter is set.
pub open spec fn spec_audit_list_path(query: Option<ListAuditLogsQuery>) -> Seq<char> {
    match query {
        None => "/v1/audit"@,
        Some(q) => {
            if spec_audit_params(q).len() == 0 {
                "/v1/audit"@
            } else {
                "/v1/audit?"@ + spec_join(spec_audit_params(q), "&"@)
            }
        },
    }
}

/// Builds the audit listing path from the optional filters.
pub fn audit_list_path(query: Option<ListAuditLogsQuery>) -> (r: String)
    ensures
        r@ == spec_audit_list_path(query),
{
    match query {
        None => String::from_str("/v1/audit"),
        Some(q) => {
            let mut params: Vec<String> = Vec::new();
            if let Some(event) = &q.event {
                let mut p = String::new();
                p.append("event=");
                p.append(event.as_str());
                params.push(p);
            }
            if let Some(resource_type) = &q.resource_type {
                let mut p = String::new();
                p.append("resource_type=");
                p.append(resource_type.as_str());
                params.push(p);
            }
            if let Some(resource_id) = &q.resource_id {
                let mut p = String::new();
                p.append("resource_id=");
                p.append(uuid_to_string(*resource_id).as_str());
                params.push(p);
            }
            if let Some(limit) = &q.limit {
                let mut p = String::new();
                p.append("limit=");
                p.append(u64_to_decimal(*limit as u64).as_str());
                params.push(p);
            }
            if let Some(offset) = &q.offset {
                let mut p = String::new();
                p.append("offset=");
                p.append(u64_to_decimal(*offset as u64).as_str());
                params.push(p);
            }
            proof {
                assert(params@.map_values(|p: String| p@) =~= spec_audit_params(q));
            }
            if params.len() == 0 {
                String::from_str("/v1/audit")
            } else {
                let mut r = String::new();
                r.append("/v1/audit?");
                r.append(join_with(&params, "&").as_str());
                r
            }
        },
    }
}

} // verus!
