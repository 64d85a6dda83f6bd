//! Deterministic derivation of a Celestia address from a compressed
//! secp256k1 public key: SHA-256, then RIPEMD-160, then bech32 under the
//! prefix `celestia`.

use vstd::prelude::*;
use vstd::string::*;

use crate::bech32::bech32_chars;
use crate::bech32::bech32_encode;
use crate::bech32::lemma_bech32_shape;
use crate::bech32::valid_hrp;
use crate::bech32::valid_hrp_char;
use crate::decimal::spec_decimal;
use crate::decimal::u64_to_decimal;
use crate::digests::ripemd160;
use crate::digests::ripemd160_of;
use crate::digests::sha256;
use crate::digests::sha256_of;
use crate::error::BanhBaoRingError;

verus! {

/// The address derived from a compressed public key: the 160-bit hash of
/// its 256-bit hash, bech32-encoded under the prefix `celestia`.
pub open spec fn spec_celestia_address(pk: Seq<u8>) -> Seq<char> {
    bech32_chars("celestia"@, ripemd160_of(sha256_of(pk)))
}

/// Derives the canonical address for a 33-byte compressed public key, and
/// rejects any other length before doing any work.
pub fn derive_celestia_address(public_key: &[u8]) -> (r: Result<String, BanhBaoRingError>)
    ensures
        public_key@.len() == 33 ==> (r matches Ok(s) && s@ == spec_celestia_address(public_key@)
            && s@.len() == 47 && s@.take(9) == "celestia1"@),
        public_key@.len() != 33 ==> (r matches Err(e) && e matches BanhBaoRingError::InvalidRequest(
            m,
        ) && m@ == "invalid public key length: expected 33 bytes, got "@ + spec_decimal(
            public_key@.len(),
        )),
{
    if public_key.len() != 33 {
        let mut m = String::new();
        m.append("invalid public key length: expected 33 bytes, got ");
        m.append(u64_to_decimal(public_key.len() as u64).as_str());
        return Err(BanhBaoRingError::InvalidRequest(m));
    }
    let sha = sha256(public_key);
    let rip = ripemd160(sha.as_slice());
    proof {
        reveal_strlit("celestia");
        assert(valid_hrp_char("celestia"@[0]));
        assert(valid_hrp_char("celestia"@[1]));
        assert(valid_hrp_char("celestia"@[2]));
        assert(valid_hrp_char("celestia"@[3]));
        assert(valid_hrp_char("celestia"@[4]));
        assert(valid_hrp_char("celestia"@[5]));
        assert(valid_hrp_char("celestia"@[6]));
        assert(valid_hrp_char("celestia"@[7]));
        assert(valid_hrp("celestia"@));
        lemma_bech32_shape("celestia"@, rip@);
        reveal_strlit("celestia1");
        assert("celestia"@ + seq!['1'] =~= "celestia1"@);
    }
    bech32_encode("celestia", rip.as_slice())
}

/// The address is a pure function of the public key: any two derivation
/// results for the same key are the same string.
pub proof fn lemma_address_deterministic(pk: Seq<u8>, a1: Seq<char>, a2: Seq<char>)
    requires
        a1 == spec_celestia_address(pk),
        a2 == spec_celestia_address(pk),
    ensures
        a1 == a2,
{
}

} // verus!
