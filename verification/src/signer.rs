//! The remote-custodian-backed signer identity: built once from a resolved
//! key record, immutable afterwards.  Resolution routing, name matching and
//! the failure message with the available names live here too; the network
//! calls they steer stay outside the crate.

use vstd::prelude::*;
use vstd::string::*;

use crate::address::derive_celestia_address;
use crate::address::spec_celestia_address;
use crate::decimal::spec_decimal;
use crate::decimal::u64_to_decimal;
use crate::encoding::base64_of;
use crate::encoding::hex_decode;
use crate::encoding::parse_uuid;
use crate::encoding::spec_hex_decode;
use crate::encoding::spec_hex_encode;
use crate::encoding::hex_encode;
use crate::encoding::uuid_parsed;
use crate::error::BanhBaoRingError;
use crate::error::SignerError;
use crate::paths::spec_join;
use crate::paths::join_with;
use crate::sign::encode_sign_request;
use crate::sign::SignRequestBody;
use crate::types::Key;
use crate::types::SignResponse;

verus! {

/// Tuning for the custodian connection used by a signer.
#[derive(Debug, Clone)]
pub struct POPSignerSignerConfig {
    /// Base URL of the custodian service, when not the default.
    pub base_url: Option<String>,
    /// Request timeout in seconds, when not the default.
    pub timeout: Option<u64>,
}

impl Default for POPSignerSignerConfig {
    /// Service defaults for both settings.
    fn default() -> (d: POPSignerSignerConfig)
        ensures
            d.base_url is None,
            d.timeout is None,
    {
        POPSignerSignerConfig { base_url: None, timeout: None }
    }
}

/// The identity of a remotely custodied signing key: its identifier, its
/// display name, the decoded compressed public key, and the address derived
/// from it.  Built once by [`POPSignerSigner::from_key`]; every later
/// operation only reads it.
#[derive(Debug)]
pub struct POPSignerSigner {
    pub key_id: u128,
    pub key_name: String,
    pub public_key: Vec<u8>,
    pub celestia_address: String,
}

impl POPSignerSigner {
    /// A well-formed signer: a 33-byte compressed public key whose derived
    /// address is cached.
    pub open spec fn wf(self) -> bool {
        &&& self.public_key@.len() == 33
        &&& self.celestia_address@ == spec_celestia_address(self.public_key@)
    }

    /// Builds the signer identity from a resolved key record: decodes the
    /// custodian-reported public key, insists on 33 bytes, and derives the
    /// address.  Only construction validates; the result is immutable.
    pub fn from_key(key: &Key) -> (r: Result<POPSignerSigner, BanhBaoRingError>)
        ensures
            spec_hex_decode(key.public_key@) is None ==> (r matches Err(e) && e
                matches BanhBaoRingError::Decode(m) && m@ == "failed to decode public key"@),
            spec_hex_decode(key.public_key@) matches Some(pk) ==> {
                &&& pk.len() != 33 ==> (r matches Err(e) && e
                    matches BanhBaoRingError::InvalidRequest(m) && m@
                    == "invalid public key length: expected 33 bytes, got "@ + spec_decimal(
                    pk.len(),
                ))
                &&& pk.len() == 33 ==> (r matches Ok(s) && {
                    &&& s.wf()
                    &&& s.key_id == key.id
                    &&& s.key_name@ == key.name@
                    &&& s.public_key@ == pk
                })
            },
    {
        let public_key = match hex_decode(key.public_key.as_str()) {
            Some(pk) => pk,
            None => {
                return Err(
                    BanhBaoRingError::Decode(String::from_str("failed to decode public key")),
                );
            },
        };
        if public_key.len() != 33 {
            let mut m = String::new();
            m.append("invalid public key length: expected 33 bytes, got ");
            m.append(u64_to_decimal(public_key.len() as u64).as_str());
            return Err(BanhBaoRingError::InvalidRequest(m));
        }
        let celestia_address = match derive_celestia_address(public_key.as_slice()) {
            Ok(a) => a,
            Err(e) => {
                return Err(e);
            },
        };
        Ok(
            POPSignerSigner {
                key_id: key.id,
                key_name: key.name.clone(),
                public_key,
                celestia_address,
            },
        )
    }

    /// The key's display name.
    pub fn key_name(&self) -> (r: &str)
        ensures
            r@ == self.key_name@,
    {
        self.key_name.as_str()
    }

    /// The key's identifier.
    pub fn key_id(&self) -> (r: u128)
        ensures
            r == self.key_id,
    {
        self.key_id
    }

    /// The compressed public key.
    pub fn public_key(&self) -> (r: &[u8])
        ensures
            r@ == self.public_key@,
    {
        self.public_key.as_slice()
    }

    /// The public key rendered as lowercase hex.
    pub fn public_key_hex(&self) -> (r: String)
        ensures
            r@ == spec_hex_encode(self.public_key@),
    {
        hex_encode(self.public_key.as_slice())
    }

    /// The derived address.
    pub fn address(&self) -> (r: &str)
        ensures
            r@ == self.celestia_address@,
    {
        self.celestia_address.as_str()
    }

    /// The wire request for signing a raw message: the payload in transport
    /// encoding, not marked pre-hashed.
    pub fn sign_request(&self, msg: &[u8]) -> (r: SignRequestBody)
        ensures
            r.data@ == base64_of(msg@),
            !r.prehashed,
    {
        encode_sign_request(msg, false)
    }

    /// The wire request for signing a digest: rejected locally, before any
    /// network traffic, unless the digest is exactly 32 bytes.
    pub fn sign_digest_request(&self, digest: &[u8]) -> (r: Result<SignRequestBody, SignerError>)
        ensures
            digest@.len() == 32 ==> (r matches Ok(b) && b.data@ == base64_of(digest@)
                && b.prehashed),
            digest@.len() != 32 ==> (r matches Err(e) && e matches SignerError::InvalidInput(m)
                && m@ == "digest must be 32 bytes, got "@ + spec_decimal(digest@.len())),
    {
        if digest.len() != 32 {
            let mut m = String::new();
            m.append("digest must be 32 bytes, got ");
            m.append(u64_to_decimal(digest.len() as u64).as_str());
            return Err(SignerError::InvalidInput(m));
        }
        Ok(encode_sign_request(digest, true))
    }

    /// Turns the remote outcome of a sign call into the signer's result:
    /// the raw signature bytes on success, the mapped error kind otherwise.
    pub fn complete_sign(&self, outcome: Result<SignResponse, BanhBaoRingError>) -> (r: Result<
        Vec<u8>,
        SignerError,
    >)
        ensures
            outcome matches Ok(resp) ==> (r matches Ok(sig) && sig@ == resp.signature@),
            outcome matches Err(e) ==> (r matches Err(se) && crate::error::maps_to_signer_error(
                e,
                se,
            )),
    {
        match outcome {
            Ok(resp) => Ok(resp.signature),
            Err(e) => Err(SignerError::from_api(e)),
        }
    }
}

// ---------------------------------------------------------------------------
// Key resolution
// ---------------------------------------------------------------------------

/// How a key reference is resolved: a well-formed identifier is fetched
/// directly; anything else is matched by name against the key listing.
#[derive(Debug, Clone, Copy, PartialEq, Eq, Structural)]
pub enum KeyLookup {
    /// Fetch the key with this identifier; the listing is never consulted.
    ById(u128),
    /// List the keys and match by exact name.
    ByName,
}

/// Chooses the resolution route: direct fetch exactly when the reference
/// parses as a key identifier, name matching otherwise.
pub fn resolve_route(key_name_or_id: &str) -> (r: KeyLookup)
    ensures
        uuid_parsed(key_name_or_id@) matches Some(id) ==> r == KeyLookup::ById(id),
        uuid_parsed(key_name_or_id@) is None ==> r == KeyLookup::ByName,
{
    match parse_uuid(key_name_or_id) {
        Some(id) => KeyLookup::ById(id),
        None => KeyLookup::ByName,
    }
}

/// Finds the first key with exactly the given name.
pub fn find_key_by_name(keys: &Vec<Key>, name: &str) -> (r: Option<usize>)
    ensures
        r is Some <==> exists|i: int| 0 <= i < keys@.len() && (#[trigger] keys@[i]).name@ == name@,
        r matches Some(i) ==> {
            &&& i < keys@.len()
            &&& keys@[i as int].name@ == name@
            &&& forall|j: int| 0 <= j < i ==> (#[trigger] keys@[j]).name@ != name@
        },
{
    let wanted = String::from_str(name);
    let mut i: usize = 0;
    while i < keys.len()
        invariant
            wanted@ == name@,
            i <= keys@.len(),
            forall|j: int| 0 <= j < i ==> (#[trigger] keys@[j]).name@ != name@,
        decreases keys@.len() - i,
    {
        if keys[i].name == wanted {
            return Some(i);
        }
        i += 1;
    }
    None
}

/// The names of the listed keys, in order.
pub fn available_names(keys: &Vec<Key>) -> (r: Vec<String>)
    ensures
        r@.len() == keys@.len(),
        forall|i: int| 0 <= i < r@.len() ==> (#[trigger] r@[i])@ == keys@[i].name@,
{
    let mut r: Vec<String> = Vec::new();
    let mut i: usize = 0;
    while i < keys.len()
        invariant
            i <= keys@.len(),
            r@.len() == i,
            forall|t: int| 0 <= t < i ==> (#[trigger] r@[t])@ == keys@[t].name@,
        decreases keys@.len() - i,
    {
        r.push(keys[i].name.clone());
        i += 1;
    }
    r
}

/// The error for an unresolved key reference: it names the reference that
/// was tried and lists the names that were available, so the caller can see
/// at once what to fix.
pub fn key_not_found_error(name: &str, available: &Vec<String>) -> (e: BanhBaoRingError)
    ensures
        e matches BanhBaoRingError::KeyNotFound(m) && m@ == "key '"@ + name@
            + "' not found (available: ["@ + spec_join(
            available@.map_values(|s: String| s@),
            ", "@,
        ) + "])"@,
{
    let mut m = String::new();
    m.append("key '");
    m.append(name);
    m.append("' not found (available: [");
    m.append(join_with(available, ", ").as_str());
    m.append("])");
    BanhBaoRingError::KeyNotFound(m)
}

} // verus!
