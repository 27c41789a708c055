//! Little-endian byte encodings and the two byte strings that get hashed: the payload a
//! fresh genome is derived from, and the payload a breeding proof is checked against.

use vstd::arithmetic::div_mod::*;
use vstd::arithmetic::mul::*;
use vstd::prelude::*;

verus! {

/// 256 to the power `n`.
pub open spec fn pow256(n: nat) -> nat
    decreases n,
{
    if n == 0 {
        1
    } else {
        256 * pow256((n - 1) as nat)
    }
}

/// The `width` low-order bytes of `value`, least significant first: byte `i` is
/// `value / 256^i mod 256`.
pub open spec fn le_bytes(value: nat, width: nat) -> Seq<u8> {
    Seq::new(width, |i: int| ((value / pow256(i as nat)) % 256) as u8)
}

/// The number whose little-endian digits in base 256 are `bytes`.
pub open spec fn le_value(bytes: Seq<u8>) -> nat
    decreases bytes.len(),
{
    if bytes.len() == 0 {
        0
    } else {
        bytes[0] as nat + 256 * le_value(bytes.drop_first())
    }
}

/// An optional 32-bit index: one zero byte when absent, else a one byte and the four
/// little-endian bytes of the index.
pub open spec fn option_u32_bytes(index: Option<u32>) -> Seq<u8> {
    match index {
        None => seq![0u8],
        Some(x) => seq![1u8] + le_bytes(x as nat, 4),
    }
}

/// The bytes a genome is derived from: the seed, the owner as eight little-endian bytes,
/// and the optional sequence index.
pub open spec fn genome_payload(seed: Seq<u8>, owner: u64, index: Option<u32>) -> Seq<u8> {
    seed + le_bytes(owner as nat, 8) + option_u32_bytes(index)
}

/// The bytes a breeding proof is checked against: both kitty ids and the nonce as four
/// little-endian bytes each, then the solution as sixteen.
pub open spec fn solution_payload(
    kitty_id_1: u32,
    kitty_id_2: u32,
    nonce: u32,
    solution: u128,
) -> Seq<u8> {
    le_bytes(kitty_id_1 as nat, 4) + le_bytes(kitty_id_2 as nat, 4) + le_bytes(nonce as nat, 4)
        + le_bytes(solution as nat, 16)
}

/// Powers of 256 are positive.
pub proof fn lemma_pow256_positive(n: nat)
    ensures
        pow256(n) > 0,
    decreases n,
{
    if n > 0 {
        lemma_pow256_positive((n - 1) as nat);
    }
}

/// 256^16 is one more than the largest `u128`.
pub proof fn lemma_pow256_16()
    ensures
        pow256(15) == 0x1_0000_0000_0000_0000_0000_0000_0000_00,
        pow256(16) == 0x1_0000_0000_0000_0000_0000_0000_0000_0000,
{
    reveal_with_fuel(pow256, 17);
}

/// Dropping the lowest byte of an encoding gives the encoding of the value divided by 256.
proof fn lemma_le_bytes_drop_first(value: nat, width: nat)
    requires
        width > 0,
    ensures
        le_bytes(value, width)[0] == (value % 256) as u8,
        le_bytes(value, width).drop_first() == le_bytes(value / 256, (width - 1) as nat),
{
    assert(pow256(0) == 1);
    assert(value / 1 == value);
    let rest = le_bytes(value, width).drop_first();
    let shifted = le_bytes(value / 256, (width - 1) as nat);
    assert forall|i: int| 0 <= i < width - 1 implies rest[i] == shifted[i] by {
        lemma_pow256_positive(i as nat);
        lemma_div_denominator(value as int, 256, pow256(i as nat) as int);
        assert(pow256((i + 1) as nat) == 256 * pow256(i as nat));
    }
    assert(rest =~= shifted);
}

/// A sequence of `n` bytes encodes a number below 256^n.
pub proof fn lemma_le_value_bound(bytes: Seq<u8>)
    ensures
        le_value(bytes) < pow256(bytes.len()),
    decreases bytes.len(),
{
    if bytes.len() > 0 {
        lemma_le_value_bound(bytes.drop_first());
        let rest = le_value(bytes.drop_first());
        let p = pow256((bytes.len() - 1) as nat);
        assert(bytes[0] as nat + 256 * rest < 256 * p) by (nonlinear_arith)
            requires
                rest < p,
                bytes[0] < 256,
        ;
    }
}

/// Decoding the `width`-byte encoding of a value gives the value modulo 256^width.
pub proof fn lemma_le_roundtrip(value: nat, width: nat)
    ensures
        le_value(le_bytes(value, width)) == value % pow256(width),
    decreases width,
{
    if width > 0 {
        let w = (width - 1) as nat;
        lemma_le_bytes_drop_first(value, width);
        lemma_le_roundtrip(value / 256, w);
        lemma_pow256_positive(w);
        lemma_mod_breakdown(value as int, 256, pow256(w) as int);
    }
}

/// On values that fit the width, the encoding loses nothing: equal encodings come from
/// equal values.
pub proof fn lemma_le_bytes_injective(a: nat, b: nat, width: nat)
    requires
        a < pow256(width),
        b < pow256(width),
        le_bytes(a, width) == le_bytes(b, width),
    ensures
        a == b,
{
    lemma_le_roundtrip(a, width);
    lemma_le_roundtrip(b, width);
    lemma_small_mod(a, pow256(width));
    lemma_small_mod(b, pow256(width));
}

/// The payload of a genome tells seed, owner and index apart: two payloads are equal
/// only if all three are.
pub proof fn lemma_genome_payload_injective(
    seed_a: Seq<u8>,
    owner_a: u64,
    index_a: Option<u32>,
    seed_b: Seq<u8>,
    owner_b: u64,
    index_b: Option<u32>,
)
    requires
        seed_a.len() == 32,
        seed_b.len() == 32,
        genome_payload(seed_a, owner_a, index_a) == genome_payload(seed_b, owner_b, index_b),
    ensures
        seed_a == seed_b,
        owner_a == owner_b,
        index_a == index_b,
{
    let a = genome_payload(seed_a, owner_a, index_a);
    let b = genome_payload(seed_b, owner_b, index_b);
    assert(a.subrange(0, 32) =~= seed_a);
    assert(b.subrange(0, 32) =~= seed_b);
    assert(a.subrange(32, 40) =~= le_bytes(owner_a as nat, 8));
    assert(b.subrange(32, 40) =~= le_bytes(owner_b as nat, 8));
    assert(pow256(8) == 0x1_0000_0000_0000_0000) by {
        reveal_with_fuel(pow256, 9);
    }
    lemma_le_bytes_injective(owner_a as nat, owner_b as nat, 8);
    assert(a.skip(40) =~= option_u32_bytes(index_a));
    assert(b.skip(40) =~= option_u32_bytes(index_b));
    assert(option_u32_bytes(index_a).len() == a.len() - 40);
    match (index_a, index_b) {
        (Some(x), Some(y)) => {
            assert(option_u32_bytes(index_a).skip(1) =~= le_bytes(x as nat, 4));
            assert(option_u32_bytes(index_b).skip(1) =~= le_bytes(y as nat, 4));
            assert(pow256(4) == 0x1_0000_0000) by {
                reveal_with_fuel(pow256, 5);
            }
            lemma_le_bytes_injective(x as nat, y as nat, 4);
        },
        (Some(_), None) => {
            assert(option_u32_bytes(index_a)[0] == 1u8);
            assert(option_u32_bytes(index_b)[0] == 0u8);
        },
        (None, Some(_)) => {
            assert(option_u32_bytes(index_a)[0] == 0u8);
            assert(option_u32_bytes(index_b)[0] == 1u8);
        },
        (None, None) => {},
    }
}

/// The payload of a proof tells ids, nonce and solution apart: two payloads are equal
/// only if all four are.
pub proof fn lemma_solution_payload_injective(
    a: (u32, u32, u32, u128),
    b: (u32, u32, u32, u128),
)
    requires
        solution_payload(a.0, a.1, a.2, a.3) == solution_payload(b.0, b.1, b.2, b.3),
    ensures
        a == b,
{
    let pa = solution_payload(a.0, a.1, a.2, a.3);
    let pb = solution_payload(b.0, b.1, b.2, b.3);
    assert(pa.subrange(0, 4) =~= le_bytes(a.0 as nat, 4));
    assert(pb.subrange(0, 4) =~= le_bytes(b.0 as nat, 4));
    assert(pa.subrange(4, 8) =~= le_bytes(a.1 as nat, 4));
    assert(pb.subrange(4, 8) =~= le_bytes(b.1 as nat, 4));
    assert(pa.subrange(8, 12) =~= le_bytes(a.2 as nat, 4));
    assert(pb.subrange(8, 12) =~= le_bytes(b.2 as nat, 4));
    assert(pa.subrange(12, 28) =~= le_bytes(a.3 as nat, 16));
    assert(pb.subrange(12, 28) =~= le_bytes(b.3 as nat, 16));
    assert(pow256(4) == 0x1_0000_0000) by {
        reveal_with_fuel(pow256, 5);
    }
    lemma_pow256_16();
    lemma_le_bytes_injective(a.0 as nat, b.0 as nat, 4);
    lemma_le_bytes_injective(a.1 as nat, b.1 as nat, 4);
    lemma_le_bytes_injective(a.2 as nat, b.2 as nat, 4);
    lemma_le_bytes_injective(a.3 as nat, b.3 as nat, 16);
}

/// Appends the `width` low-order bytes of `value` to `out`, least significant first.
pub fn push_le(out: &mut Vec<u8>, value: u128, width: usize)
    ensures
        final(out)@ == old(out)@ + le_bytes(value as nat, width as nat),
{
    let ghost start = out@;
    let mut rest: u128 = value;
    let mut i: usize = 0;
    proof {
        assert(pow256(0) == 1);
        assert(value as nat / 1 == value as nat);
        assert(out@ =~= start + le_bytes(value as nat, 0));
    }
    while i < width
        invariant
            i <= width,
            rest == value as nat / pow256(i as nat),
            out@ == start + le_bytes(value as nat, i as nat),
        decreases width - i,
    {
        out.push((rest % 256) as u8);
        proof {
            lemma_pow256_positive(i as nat);
            lemma_div_denominator(value as int, pow256(i as nat) as int, 256);
            assert(pow256((i + 1) as nat) == 256 * pow256(i as nat));
            assert(pow256(i as nat) * 256 == 256 * pow256(i as nat)) by (nonlinear_arith);
            assert(out@ =~= start + le_bytes(value as nat, (i + 1) as nat));
        }
        rest = rest / 256;
        i += 1;
    }
}

/// Reads sixteen bytes as a little-endian number.
pub fn u128_from_le(bytes: &[u8; 16]) -> (value: u128)
    ensures
        value == le_value(bytes@),
{
    let mut value: u128 = 0;
    let mut i: usize = 16;
    proof {
        assert(bytes@.skip(16) =~= Seq::<u8>::empty());
    }
    while i > 0
        invariant
            i <= 16,
            value == le_value(bytes@.skip(i as int)),
        decreases i,
    {
        proof {
            let tail = bytes@.skip(i as int);
            let longer = bytes@.skip(i as int - 1);
            assert(longer.drop_first() =~= tail);
            assert(longer[0] == bytes@[i as int - 1]);
            lemma_le_value_bound(tail);
            lemma_le_value_bound(longer);
            lemma_pow256_16();
            lemma_pow256_monotonic(longer.len(), 16);
        }
        i -= 1;
        value = value * 256 + bytes[i] as u128;
    }
    proof {
        assert(bytes@.skip(0) =~= bytes@);
    }
    value
}

/// Larger exponents give larger powers.
pub proof fn lemma_pow256_monotonic(a: nat, b: nat)
    requires
        a <= b,
    ensures
        pow256(a) <= pow256(b),
    decreases b,
{
    if a < b {
        lemma_pow256_monotonic(a, (b - 1) as nat);
    }
}

/// Encodes the payload a genome is derived from.
pub fn encode_genome_payload(seed: &[u8; 32], owner: u64, index: Option<u32>) -> (payload: Vec<u8>)
    ensures
        payload@ == genome_payload(seed@, owner, index),
{
    let mut payload: Vec<u8> = Vec::new();
    let mut i: usize = 0;
    while i < 32
        invariant
            i <= 32,
            payload@ == seed@.take(i as int),
        decreases 32 - i,
    {
        payload.push(seed[i]);
        proof {
            assert(payload@ =~= seed@.take(i as int + 1));
        }
        i += 1;
    }
    proof {
        assert(seed@.take(32) =~= seed@);
    }
    push_le(&mut payload, owner as u128, 8);
    match index {
        None => {
            payload.push(0u8);
            proof {
                assert(payload@ =~= genome_payload(seed@, owner, index));
            }
        },
        Some(x) => {
            payload.push(1u8);
            push_le(&mut payload, x as u128, 4);
            proof {
                assert(payload@ =~= genome_payload(seed@, owner, index));
            }
        },
    }
    payload
}

/// Encodes the payload a breeding proof is checked against.
pub fn encode_solution_payload(kitty_id_1: u32, kitty_id_2: u32, nonce: u32, solution: u128) -> (payload:
    Vec<u8>)
    ensures
        payload@ == solution_payload(kitty_id_1, kitty_id_2, nonce, solution),
{
    let mut payload: Vec<u8> = Vec::new();
    push_le(&mut payload, kitty_id_1 as u128, 4);
    push_le(&mut payload, kitty_id_2 as u128, 4);
    push_le(&mut payload, nonce as u128, 4);
    push_le(&mut payload, solution, 16);
    proof {
        assert(payload@ =~= solution_payload(kitty_id_1, kitty_id_2, nonce, solution));
    }
    payload
}

} // verus!
