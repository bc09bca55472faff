//! The Keccak-256 hash, computed by the `sha3` crate.

use crate::primitives::{h256_from_bytes, h256_of_bytes, H256};
use sha3::{Digest, Keccak256};
use vstd::prelude::*;

verus! {

/// The 32 bytes of the Keccak-256 digest of `data`.
pub uninterp spec fn keccak256_digest(data: Seq<u8>) -> Seq<u8>;

/// The digest of `data`, by `sha3::Keccak256::digest`, copied into an array
/// by `primitive_types::H256::from_slice`. The digest depends on the bytes
/// of `data` alone and is 32 bytes long, which is all that is claimed here.
#[verifier::external_body]
fn keccak256_bytes(data: &[u8]) -> (digest: [u8; 32])
    ensures
        digest@ == keccak256_digest(data@),
{
    primitive_types::H256::from_slice(Keccak256::digest(data).as_slice()).0
}

/// The Keccak-256 hash of `data`.
pub fn keccak256(data: &[u8]) -> (hash: H256)
    ensures
        hash == h256_of_bytes(keccak256_digest(data@)),
{
    let digest = keccak256_bytes(data);
    h256_from_bytes(&digest)
}

} // verus!
