//! The Soroban host function the library calls: SHA-256.

use vstd::prelude::*;
use soroban_sdk::Env;

verus! {

/// The Soroban environment handle, carried through to the host calls below.
#[verifier::external_type_specification]
#[verifier::external_body]
pub struct ExEnv(soroban_sdk::Env);

/// The SHA-256 digest of `data`, as the Soroban host computes it.
pub uninterp spec fn sha256_digest(data: Seq<u8>) -> Seq<u8>;

/// Calls `soroban_sdk::crypto::Crypto::sha256` on `data`. Claimed: the
/// 32 bytes returned are the digest of the bytes passed, and nothing else
/// (such as the environment) affects them.
#[verifier::external_body]
pub(crate) fn sha256(env: &Env, data: &Vec<u8>) -> (h: [u8; 32])
    ensures
        h@ == sha256_digest(data@),
{
    env.crypto().sha256(&soroban_sdk::Bytes::from_slice(env, data.as_slice())).to_array()
}

} // verus!
