//! The 128-bit digest behind fresh genomes and breeding proofs.

use crate::encoding::{
    encode_genome_payload, encode_solution_payload, genome_payload, le_value, solution_payload,
    u128_from_le,
};
use vstd::prelude::*;

verus! {

/// The 128-bit BLAKE2b digest of `data`.
pub uninterp spec fn blake2_128_digest(data: Seq<u8>) -> Seq<u8>;

/// Hashes `data` with `sp_io::hashing::blake2_128`. Not proved: that the sixteen bytes
/// returned are the digest of `data`, which is all that `blake2_128_digest` stands for.
#[verifier::external_body]
pub(crate) fn blake2_128(data: &[u8]) -> (digest: [u8; 16])
    ensures
        digest@ == blake2_128_digest(data@),
{
    sp_io::hashing::blake2_128(data)
}

/// The genome derived from a randomness seed, the requesting account and the sequence
/// index of the request.
pub open spec fn spec_random_genome(seed: Seq<u8>, owner: u64, index: Option<u32>) -> Seq<u8> {
    blake2_128_digest(genome_payload(seed, owner, index))
}

/// Derives a genome: the digest of seed, owner and sequence index, encoded in this order.
pub fn random_genome(seed: &[u8; 32], owner: u64, index: Option<u32>) -> (dna: [u8; 16])
    ensures
        dna@ == spec_random_genome(seed@, owner, index),
{
    let payload = encode_genome_payload(seed, owner, index);
    blake2_128(payload.as_slice())
}

/// The largest digest value, plus one, that a proof of the given difficulty may have.
pub open spec fn proof_target(difficulty: u32) -> nat {
    u128::MAX as nat / difficulty as nat
}

/// Whether a digest, read as a little-endian number, lies below the target of the
/// difficulty.
pub open spec fn spec_digest_meets_target(digest: Seq<u8>, difficulty: u32) -> bool {
    le_value(digest) < proof_target(difficulty)
}

/// Whether `solution` is a proof of work for breeding the two kitties under `nonce`.
pub open spec fn spec_check_proof(
    difficulty: u32,
    kitty_id_1: u32,
    kitty_id_2: u32,
    nonce: u32,
    solution: u128,
) -> bool {
    spec_digest_meets_target(
        blake2_128_digest(solution_payload(kitty_id_1, kitty_id_2, nonce, solution)),
        difficulty,
    )
}

/// Compares a digest with the target of the difficulty.
pub fn digest_meets_target(digest: &[u8; 16], difficulty: u32) -> (ok: bool)
    requires
        difficulty > 0,
    ensures
        ok == spec_digest_meets_target(digest@, difficulty),
{
    let hash_value = u128_from_le(digest);
    hash_value < u128::MAX / (difficulty as u128)
}

/// Checks a proof of work: hashes ids, nonce and solution and compares the digest with
/// the target. Depends on nothing but its arguments.
pub fn check_proof(difficulty: u32, kitty_id_1: u32, kitty_id_2: u32, nonce: u32, solution: u128) -> (ok:
    bool)
    requires
        difficulty > 0,
    ensures
        ok == spec_check_proof(difficulty, kitty_id_1, kitty_id_2, nonce, solution),
{
    let payload = encode_solution_payload(kitty_id_1, kitty_id_2, nonce, solution);
    let digest = blake2_128(payload.as_slice());
    digest_meets_target(&digest, difficulty)
}

/// A genome depends on nothing but seed, owner and index: equal inputs give equal genomes.
pub proof fn lemma_random_genome_deterministic(
    seed_a: Seq<u8>,
    owner_a: u64,
    index_a: Option<u32>,
    seed_b: Seq<u8>,
    owner_b: u64,
    index_b: Option<u32>,
)
    requires
        seed_a == seed_b,
        owner_a == owner_b,
        index_a == index_b,
    ensures
        spec_random_genome(seed_a, owner_a, index_a) == spec_random_genome(seed_b, owner_b, index_b),
{
}

} // verus!
