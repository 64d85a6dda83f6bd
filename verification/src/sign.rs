//! Signing requests and responses: transport encoding of payloads, decoding
//! of returned signatures, and the batch bookkeeping that keeps every
//! successful signature while counting the failed items.

use vstd::prelude::*;
use vstd::string::*;

use crate::encoding::base64_decode;
use crate::encoding::base64_decoded;
use crate::encoding::base64_encode;
use crate::encoding::base64_of;
use crate::error::BanhBaoRingError;
use crate::types::BatchSignRequest;
use crate::types::SignResponse;

verus! {

/// Wire form of a single sign request: the payload in transport encoding
/// and the pre-hashed flag.
#[derive(Debug, Clone)]
pub struct SignRequestBody {
    pub data: String,
    pub prehashed: bool,
}

/// Wire form of a single sign response.
#[derive(Debug, Clone)]
pub struct SignResponseBody {
    pub signature: String,
    pub public_key: String,
}

/// Wire form of one item of a batch sign request.
#[derive(Debug, Clone)]
pub struct BatchSignEntry {
    pub key_id: u128,
    pub data: String,
    pub prehashed: bool,
}

/// Wire form of one item of a batch sign response: matched to its request
/// by key identifier, carrying either a signature or an error marker.
#[derive(Debug, Clone)]
pub struct BatchSignatureEntry {
    pub key_id: u128,
    pub signature: String,
    pub public_key: String,
    pub error: Option<String>,
}

/// Wire form of a verification request.
#[derive(Debug, Clone)]
pub struct VerifyRequestBody {
    pub data: String,
    pub signature: String,
    pub prehashed: bool,
}

// ---------------------------------------------------------------------------
// Single sign
// ---------------------------------------------------------------------------

/// Encodes one payload for transport.
pub fn encode_sign_request(data: &[u8], prehashed: bool) -> (r: SignRequestBody)
    ensures
        r.data@ == base64_of(data@),
        r.prehashed == prehashed,
{
    SignRequestBody { data: base64_encode(data), prehashed }
}

/// Decodes the signature of one sign response, pairing it with the key that
/// produced it; a signature that is not valid transport encoding is a
/// decode error.
pub fn decode_sign_response(key_id: u128, body: SignResponseBody) -> (r: Result<
    SignResponse,
    BanhBaoRingError,
>)
    ensures
        base64_decoded(body.signature@) matches Some(sig) ==> (r matches Ok(resp)
            && resp.key_id == key_id && resp.signature@ == sig && resp.public_key@
            == body.public_key@),
        base64_decoded(body.signature@) is None ==> (r matches Err(e) && e
            matches BanhBaoRingError::Decode(m) && m@ == "invalid base64 signature"@),
{
    match base64_decode(body.signature.as_str()) {
        Some(signature) => Ok(
            SignResponse { key_id, signature, public_key: body.public_key },
        ),
        None => Err(BanhBaoRingError::Decode(String::from_str("invalid base64 signature"))),
    }
}

/// Encodes a verification request for transport.
pub fn encode_verify_request(data: &[u8], signature: &[u8], prehashed: bool) -> (r:
    VerifyRequestBody)
    ensures
        r.data@ == base64_of(data@),
        r.signature@ == base64_of(signature@),
        r.prehashed == prehashed,
{
    VerifyRequestBody { data: base64_encode(data), signature: base64_encode(signature), prehashed }
}

// ---------------------------------------------------------------------------
// Batch sign
// ---------------------------------------------------------------------------

/// Encodes every item of a batch for transport, keeping order, key
/// identifiers and flags.
pub fn encode_batch_request(request: &BatchSignRequest) -> (r: Vec<BatchSignEntry>)
    ensures
        r@.len() == request.requests@.len(),
        forall|i: int|
            0 <= i < r@.len() ==> {
                &&& (#[trigger] r@[i]).key_id == request.requests@[i].key_id
                &&& r@[i].data@ == base64_of(request.requests@[i].data@)
                &&& r@[i].prehashed == request.requests@[i].prehashed
            },
{
    let mut r: Vec<BatchSignEntry> = Vec::new();
    let mut i: usize = 0;
    while i < request.requests.len()
        invariant
            i <= request.requests@.len(),
            r@.len() == i,
            forall|t: int|
                0 <= t < i ==> {
                    &&& (#[trigger] r@[t]).key_id == request.requests@[t].key_id
                    &&& r@[t].data@ == base64_of(request.requests@[t].data@)
                    &&& r@[t].prehashed == request.requests@[t].prehashed
                },
        decreases request.requests@.len() - i,
    {
        let item = &request.requests[i];
        r.push(
            BatchSignEntry {
                key_id: item.key_id,
                data: base64_encode(item.data.as_slice()),
                prehashed: item.prehashed,
            },
        );
        i += 1;
    }
    r
}

/// How many of the first `n` returned items carry an error marker.
pub open spec fn spec_failures(rs: Seq<BatchSignatureEntry>, n: int) -> int
    decreases n,
{
    if n <= 0 {
        0
    } else {
        spec_failures(rs, n - 1) + if rs[n - 1].error is Some {
            1int
        } else {
            0int
        }
    }
}

/// The returned items without an error marker, in order, among the first `n`.
pub open spec fn spec_successes(rs: Seq<BatchSignatureEntry>, n: int) -> Seq<BatchSignatureEntry>
    decreases n,
{
    if n <= 0 {
        Seq::empty()
    } else if rs[n - 1].error is None {
        spec_successes(rs, n - 1).push(rs[n - 1])
    } else {
        spec_successes(rs, n - 1)
    }
}

/// Every returned item without an error marker carries a decodable signature.
pub open spec fn spec_all_signatures_decode(rs: Seq<BatchSignatureEntry>) -> bool {
    forall|i: int|
        0 <= i < rs.len() && (#[trigger] rs[i]).error is None ==> base64_decoded(
            rs[i].signature@,
        ) is Some
}

proof fn lemma_failure_count_bounds(rs: Seq<BatchSignatureEntry>, n: int)
    requires
        0 <= n <= rs.len(),
    ensures
        0 <= spec_failures(rs, n) <= n,
        spec_successes(rs, n).len() + spec_failures(rs, n) == n,
    decreases n,
{
    if n > 0 {
        lemma_failure_count_bounds(rs, n - 1);
    }
}

/// Rebuilds the per-item outcomes of a batch of `total` submitted items from
/// the returned entries.  Items with an error marker are only counted;
/// signatures are decoded and kept.  A batch in which every returned item
/// failed and nothing was signed is reported as a whole-batch failure with
/// the failure count and the submitted total; any batch with at least one
/// signature returns the successes silently.
pub fn collect_batch_results(total: usize, signatures: Vec<BatchSignatureEntry>) -> (r: Result<
    Vec<SignResponse>,
    BanhBaoRingError,
>)
    ensures
        !spec_all_signatures_decode(signatures@) ==> (r matches Err(e) && e
            matches BanhBaoRingError::Decode(m) && m@ == "invalid base64 signature"@),
        spec_all_signatures_decode(signatures@) && spec_failures(
            signatures@,
            signatures@.len() as int,
        ) > 0 && spec_successes(signatures@, signatures@.len() as int).len() == 0 ==> (r
            matches Err(e) && e matches BanhBaoRingError::BatchPartialFailure { failed, total: t }
            && failed == spec_failures(signatures@, signatures@.len() as int) && t == total),
        spec_all_signatures_decode(signatures@) && (spec_failures(
            signatures@,
            signatures@.len() as int,
        ) == 0 || spec_successes(signatures@, signatures@.len() as int).len() > 0) ==> (r
            matches Ok(v) && {
            let succ = spec_successes(signatures@, signatures@.len() as int);
            &&& v@.len() == succ.len()
            &&& forall|i: int|
                0 <= i < v@.len() ==> {
                    &&& (#[trigger] v@[i]).key_id == succ[i].key_id
                    &&& Some(v@[i].signature@) == base64_decoded(succ[i].signature@)
                    &&& v@[i].public_key@ == succ[i].public_key@
                }
        }),
{
    let mut results: Vec<SignResponse> = Vec::new();
    let mut errors: usize = 0;
    let mut i: usize = 0;
    while i < signatures.len()
        invariant
            i <= signatures@.len(),
            errors == spec_failures(signatures@, i as int),
            errors <= i,
            results@.len() == spec_successes(signatures@, i as int).len(),
            forall|t: int|
                0 <= t < i && (#[trigger] signatures@[t]).error is None ==> base64_decoded(
                    signatures@[t].signature@,
                ) is Some,
            forall|t: int|
                0 <= t < results@.len() ==> {
                    let succ = spec_successes(signatures@, i as int);
                    &&& (#[trigger] results@[t]).key_id == succ[t].key_id
                    &&& Some(results@[t].signature@) == base64_decoded(succ[t].signature@)
                    &&& results@[t].public_key@ == succ[t].public_key@
                },
        decreases signatures@.len() - i,
    {
        proof {
            lemma_failure_count_bounds(signatures@, i as int);
        }
        let entry = &signatures[i];
        if entry.error.is_some() {
            errors = errors + 1;
        } else {
            match base64_decode(entry.signature.as_str()) {
                Some(signature) => {
                    results.push(
                        SignResponse {
                            key_id: entry.key_id,
                            signature,
                            public_key: entry.public_key.clone(),
                        },
                    );
                },
                None => {
                    return Err(
                        BanhBaoRingError::Decode(String::from_str("invalid base64 signature")),
                    );
                },
            }
        }
        i += 1;
    }
    if errors > 0 && results.len() == 0 {
        Err(BanhBaoRingError::BatchPartialFailure { failed: errors, total })
    } else {
        Ok(results)
    }
}

} // verus!
