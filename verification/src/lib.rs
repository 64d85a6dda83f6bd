//! Client-side abstraction for remote signing: a bech32 address codec,
//! deterministic address derivation from a compressed public key, a signer
//! identity resolved from a remote key record, and batch-signing bookkeeping
//! that tolerates partial failures.
//!
//! The network transport itself lives outside this crate; everything here is
//! the logic that decides what to send and what a reply means.

pub mod address;
pub mod bech32;
pub mod bech32_roundtrip;
pub mod celestia;
pub mod client;
pub mod decimal;
pub mod digests;
pub mod encoding;
pub mod error;
pub mod paths;
pub mod sign;
pub mod signer;
pub mod types;

pub use bech32::bech32_encode;
pub use bech32::bech32_polymod;
pub use bech32::expand_hrp;
pub use signer::POPSignerSigner as CelestiaSigner;
