use popsigner::error::BanhBaoRingError;
use popsigner::paths::audit_list_path;
use popsigner::paths::key_path;
use popsigner::paths::keys_list_path;
use popsigner::paths::sign_path;
use popsigner::signer::find_key_by_name;
use popsigner::signer::key_not_found_error;
use popsigner::signer::resolve_route;
use popsigner::signer::KeyLookup;
use popsigner::types::Key;
use popsigner::types::ListAuditLogsQuery;

fn named_key(id: u128, name: &str) -> Key {
    Key {
        id,
        name: name.to_string(),
        namespace_id: 0,
        public_key: String::new(),
        address: String::new(),
        algorithm: "secp256k1".to_string(),
        exportable: false,
        metadata: None,
        created_at: String::new(),
    }
}

#[test]
fn test_resolve_route_identifier_goes_direct() {
    // A well-formed key identifier is fetched directly; the listing is
    // never consulted.
    let route = resolve_route("00000000-0000-0000-0000-000000000001");
    assert_eq!(route, KeyLookup::ById(1));
}

#[test]
fn test_resolve_route_name_goes_through_listing() {
    let route = resolve_route("my-key");
    assert_eq!(route, KeyLookup::ByName);
}

#[test]
fn test_find_key_by_name_exact_match() {
    let keys = vec![named_key(1, "key-1"), named_key(2, "key-2"), named_key(3, "key-2")];
    assert_eq!(find_key_by_name(&keys, "key-2"), Some(1));
    assert_eq!(find_key_by_name(&keys, "key-1"), Some(0));
    assert_eq!(find_key_by_name(&keys, "key"), None);
    assert_eq!(find_key_by_name(&keys, "key-22"), None);
}

#[test]
fn test_key_not_found_error_embeds_name_and_names() {
    let available = vec!["key-1".to_string(), "key-2".to_string()];
    let err = key_not_found_error("my-key", &available);
    match err {
        BanhBaoRingError::KeyNotFound(m) => {
            assert_eq!(m, "key 'my-key' not found (available: [key-1, key-2])");
        },
        other => panic!("expected KeyNotFound, got {:?}", other),
    }
}

#[test]
fn test_key_not_found_error_with_no_names() {
    let err = key_not_found_error("my-key", &vec![]);
    match err {
        BanhBaoRingError::KeyNotFound(m) => {
            assert_eq!(m, "key 'my-key' not found (available: [])");
        },
        other => panic!("expected KeyNotFound, got {:?}", other),
    }
}

#[test]
fn test_key_paths() {
    assert_eq!(key_path(1), "/v1/keys/00000000-0000-0000-0000-000000000001");
    assert_eq!(sign_path(1), "/v1/keys/00000000-0000-0000-0000-000000000001/sign");
    assert_eq!(keys_list_path(None), "/v1/keys");
    assert_eq!(
        keys_list_path(Some(0x99)),
        "/v1/keys?namespace_id=00000000-0000-0000-0000-000000000099"
    );
}

#[test]
fn test_audit_list_path_without_filters() {
    assert_eq!(audit_list_path(None), "/v1/audit");
    assert_eq!(audit_list_path(Some(ListAuditLogsQuery::default())), "/v1/audit");
}

#[test]
fn test_audit_list_path_with_filters() {
    let query = ListAuditLogsQuery {
        event: Some("key.created".to_string()),
        resource_type: None,
        resource_id: Some(1),
        limit: Some(10),
        offset: None,
    };
    assert_eq!(
        audit_list_path(Some(query)),
        "/v1/audit?event=key.created&resource_id=00000000-0000-0000-0000-000000000001&limit=10"
    );
}
