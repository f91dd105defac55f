//! Deterministic resource-account address derivation: the SHA3-256 digest of
//! the owner's raw address bytes, the caller-chosen seed, and the chain's
//! resource-account scheme byte.

use vstd::prelude::*;
use sha3::{Digest, Sha3_256};
use crate::address::Address;

verus! {

/// The scheme byte the chain appends when deriving a resource account.
pub const DERIVE_RESOURCE_ACCOUNT_SCHEME: u8 = 255;

/// The SHA3-256 digest of a byte string, by name: a function of the input
/// alone, the same in every process and on every machine.
pub uninterp spec fn sha3_256_of(input: Seq<u8>) -> Seq<u8>;

/// Relies on sha3::Sha3_256 through Digest::digest: a SHA3-256 digest of
/// exactly thirty-two bytes, depending on the input bytes alone.
#[verifier::external_body]
fn sha3_256(input: &Vec<u8>) -> (r: Vec<u8>)
    ensures
        r@ == sha3_256_of(input@),
        r@.len() == 32,
{
    Sha3_256::digest(input.as_slice()).to_vec()
}

/// The hash preimage of derivation: owner bytes, then the seed, then the
/// scheme byte.
pub open spec fn derive_preimage(owner: Seq<u8>, seed: Seq<u8>) -> Seq<u8> {
    owner + seed + seq![DERIVE_RESOURCE_ACCOUNT_SCHEME]
}

/// The address the chain will give the resource account created from this
/// owner and seed.
pub open spec fn derived_address_bytes(owner: Seq<u8>, seed: Seq<u8>) -> Seq<u8> {
    sha3_256_of(derive_preimage(owner, seed))
}

/// Derives the address of the resource account an owner creates under a
/// seed. Pure and deterministic: the result is fixed by the two inputs.
pub fn create_resource_address(owner: &Address, seed: &Vec<u8>) -> (r: Address)
    requires
        owner.wf(),
    ensures
        r.wf(),
        r@ == derived_address_bytes(owner@, seed@),
{
    let mut input: Vec<u8> = Vec::new();
    input.extend_from_slice(owner.bytes().as_slice());
    input.extend_from_slice(seed.as_slice());
    input.push(DERIVE_RESOURCE_ACCOUNT_SCHEME);
    proof {
        assert(input@ =~= derive_preimage(owner@, seed@));
    }
    let digest = sha3_256(&input);
    Address::from_fixed_bytes(digest)
}

/// Law: derivation is deterministic. The contract of
/// `create_resource_address` pins one address per (owner, seed) pair, so any
/// two results for equal inputs are equal.
pub proof fn lemma_derive_deterministic(owner: Seq<u8>, seed: Seq<u8>, r1: Seq<u8>, r2: Seq<u8>)
    requires
        r1 == derived_address_bytes(owner, seed),
        r2 == derived_address_bytes(owner, seed),
    ensures
        r1 == r2,
{
}

/// Law: for one owner, distinct seeds give distinct hash preimages — a
/// collision of derived addresses could only come from a collision of the
/// digest itself, never from the framing of its input.
pub proof fn lemma_preimage_injective(owner: Seq<u8>, s1: Seq<u8>, s2: Seq<u8>)
    requires
        owner.len() == 32,
        s1 != s2,
    ensures
        derive_preimage(owner, s1) != derive_preimage(owner, s2),
{
    if s1.len() == s2.len() {
        if derive_preimage(owner, s1) == derive_preimage(owner, s2) {
            assert forall|i: int| 0 <= i < s1.len() implies s1[i] == s2[i] by {
                assert(derive_preimage(owner, s1)[32 + i] == derive_preimage(owner, s2)[32 + i]);
            }
            assert(s1 =~= s2);
        }
    } else {
        assert(derive_preimage(owner, s1).len() != derive_preimage(owner, s2).len());
    }
}

} // verus!
