//! The genome of a kitty and the traits derived from it.

use vstd::prelude::*;
use vstd::relations::injective_on;
use vstd::set_lib::*;

verus! {

/// The sex of a kitty, derived from its genome.
#[derive(Clone, Copy, Debug, PartialEq, Eq, Structural)]
pub enum KittyGender {
    Male,
    Female,
}

/// A kitty: nothing but its 16-byte genome.
#[derive(Clone, Copy, Debug, PartialEq, Eq)]
pub struct Kitty(pub [u8; 16]);

/// The sex carried by a genome whose first byte is `first`: even is male, odd is female.
pub open spec fn gender_of_byte(first: u8) -> KittyGender {
    if first % 2 == 0 {
        KittyGender::Male
    } else {
        KittyGender::Female
    }
}

/// The byte a child inherits: bit by bit from `dna1_byte` where `selector` has a 0 and
/// from `dna2_byte` where it has a 1.
pub open spec fn spec_combine_dna(dna1_byte: u8, dna2_byte: u8, selector: u8) -> u8 {
    (!selector & dna1_byte) | (selector & dna2_byte)
}

/// The genome a child inherits from two parents under a 16-byte selector.
pub open spec fn spec_combine(dna1: Seq<u8>, dna2: Seq<u8>, selector: Seq<u8>) -> Seq<u8> {
    Seq::new(16, |i: int| spec_combine_dna(dna1[i], dna2[i], selector[i]))
}

/// Bit `k` of `byte`.
pub open spec fn bit_of(byte: u8, k: u8) -> bool {
    (byte >> k) & 1 == 1
}

/// The kitty whose genome is the first 16 bytes of `dna`.
pub open spec fn kitty_of_dna(dna: Seq<u8>) -> Kitty {
    Kitty(
        [
            dna[0],
            dna[1],
            dna[2],
            dna[3],
            dna[4],
            dna[5],
            dna[6],
            dna[7],
            dna[8],
            dna[9],
            dna[10],
            dna[11],
            dna[12],
            dna[13],
            dna[14],
            dna[15],
        ],
    )
}

/// A kitty made of 16 bytes has exactly these as its genome.
pub proof fn lemma_kitty_of_dna(dna: Seq<u8>)
    requires
        dna.len() == 16,
    ensures
        kitty_of_dna(dna).dna() == dna,
{
    assert(kitty_of_dna(dna).0@ =~= dna);
}

impl Kitty {
    /// The genome as a sequence of 16 bytes.
    pub open spec fn dna(&self) -> Seq<u8> {
        self.0@
    }

    /// The kitty with this genome.
    pub fn from_dna(dna: [u8; 16]) -> (kitty: Kitty)
        ensures
            kitty.0 == dna,
            kitty == kitty_of_dna(dna@),
    {
        proof {
            lemma_kitty_of_dna(dna@);
            assert(kitty_of_dna(dna@).0 =~= dna);
        }
        Kitty(dna)
    }

    /// The sex of this kitty.
    pub open spec fn spec_gender(&self) -> KittyGender {
        gender_of_byte(self.0[0])
    }

    /// Derives the sex from the parity of the first genome byte.
    pub fn gender(&self) -> (g: KittyGender)
        ensures
            g == self.spec_gender(),
            g == KittyGender::Female <==> self.0[0] % 2 == 1,
    {
        if self.0[0] % 2 == 0 {
            KittyGender::Male
        } else {
            KittyGender::Female
        }
    }
}

/// Combines one byte of each parent under one selector byte.
pub fn combine_dna(dna1_byte: u8, dna2_byte: u8, selector: u8) -> (child: u8)
    ensures
        child == spec_combine_dna(dna1_byte, dna2_byte, selector),
{
    (!selector & dna1_byte) | (selector & dna2_byte)
}

/// Combines two parent genomes byte by byte under a selector.
pub fn combine(dna1: &[u8; 16], dna2: &[u8; 16], selector: &[u8; 16]) -> (child: [u8; 16])
    ensures
        child@ == spec_combine(dna1@, dna2@, selector@),
{
    let mut child: [u8; 16] = [0u8; 16];
    let mut i: usize = 0;
    while i < 16
        invariant
            i <= 16,
            forall|j: int| 0 <= j < i ==> child@[j] == spec_combine_dna(dna1@[j], dna2@[j], selector@[j]),
        decreases 16 - i,
    {
        child[i] = combine_dna(dna1[i], dna2[i], selector[i]);
        i += 1;
    }
    child
}

/// Every bit of an inherited byte comes from the first parent where the selector bit is 0
/// and from the second parent where it is 1.
pub proof fn lemma_combine_dna_bitwise(dna1_byte: u8, dna2_byte: u8, selector: u8, k: u8)
    requires
        k < 8,
    ensures
        bit_of(spec_combine_dna(dna1_byte, dna2_byte, selector), k) == if bit_of(selector, k) {
            bit_of(dna2_byte, k)
        } else {
            bit_of(dna1_byte, k)
        },
{
    assert(k < 8 ==> (((((!selector & dna1_byte) | (selector & dna2_byte)) >> k) & 1 == 1) == (if (
    selector >> k) & 1 == 1 {
        (dna2_byte >> k) & 1 == 1
    } else {
        (dna1_byte >> k) & 1 == 1
    }))) by (bit_vector);
}

/// A byte is determined by its eight bits.
pub proof fn lemma_byte_by_bits(a: u8, b: u8)
    requires
        forall|k: u8| k < 8 ==> bit_of(a, k) == bit_of(b, k),
    ensures
        a == b,
{
    assert(bit_of(a, 0) == bit_of(b, 0));
    assert(bit_of(a, 1) == bit_of(b, 1));
    assert(bit_of(a, 2) == bit_of(b, 2));
    assert(bit_of(a, 3) == bit_of(b, 3));
    assert(bit_of(a, 4) == bit_of(b, 4));
    assert(bit_of(a, 5) == bit_of(b, 5));
    assert(bit_of(a, 6) == bit_of(b, 6));
    assert(bit_of(a, 7) == bit_of(b, 7));
    assert((((a >> 0u8) & 1 == 1) == ((b >> 0u8) & 1 == 1) && ((a >> 1u8) & 1 == 1) == ((b >> 1u8) & 1
        == 1) && ((a >> 2u8) & 1 == 1) == ((b >> 2u8) & 1 == 1) && ((a >> 3u8) & 1 == 1) == ((b
        >> 3u8) & 1 == 1) && ((a >> 4u8) & 1 == 1) == ((b >> 4u8) & 1 == 1) && ((a >> 5u8) & 1 == 1)
        == ((b >> 5u8) & 1 == 1) && ((a >> 6u8) & 1 == 1) == ((b >> 6u8) & 1 == 1) && ((a >> 7u8) & 1
        == 1) == ((b >> 7u8) & 1 == 1)) ==> a == b) by (bit_vector);
}

/// The inheritance law of breeding: the child has 16 bytes, and bit `k` of its byte `i` is
/// bit `k` of the second parent's byte `i` where the selector has a 1 there, and of the
/// first parent's byte `i` where it has a 0. No other genome has this property.
pub proof fn lemma_combine_inherits(dna1: Seq<u8>, dna2: Seq<u8>, selector: Seq<u8>)
    ensures
        spec_combine(dna1, dna2, selector).len() == 16,
        forall|i: int, k: u8|
            #![trigger bit_of(spec_combine(dna1, dna2, selector)[i], k)]
            0 <= i < 16 && k < 8 ==> bit_of(spec_combine(dna1, dna2, selector)[i], k) == if bit_of(
                selector[i],
                k,
            ) {
                bit_of(dna2[i], k)
            } else {
                bit_of(dna1[i], k)
            },
{
    let child = spec_combine(dna1, dna2, selector);
    assert forall|i: int, k: u8| 0 <= i < 16 && k < 8 implies #[trigger] bit_of(child[i], k)
        == if bit_of(selector[i], k) {
        bit_of(dna2[i], k)
    } else {
        bit_of(dna1[i], k)
    } by {
        lemma_combine_dna_bitwise(dna1[i], dna2[i], selector[i], k);
    }
}

/// A genome that obeys the inheritance law bit by bit is the combined genome.
pub proof fn lemma_combine_unique(dna1: Seq<u8>, dna2: Seq<u8>, selector: Seq<u8>, child: Seq<u8>)
    requires
        child.len() == 16,
        forall|i: int, k: u8|
            #![trigger bit_of(child[i], k)]
            0 <= i < 16 && k < 8 ==> bit_of(child[i], k) == if bit_of(selector[i], k) {
                bit_of(dna2[i], k)
            } else {
                bit_of(dna1[i], k)
            },
    ensures
        child == spec_combine(dna1, dna2, selector),
{
    let expected = spec_combine(dna1, dna2, selector);
    assert forall|i: int| 0 <= i < 16 implies child[i] == expected[i] by {
        assert forall|k: u8| k < 8 implies bit_of(child[i], k) == bit_of(expected[i], k) by {
            lemma_combine_dna_bitwise(dna1[i], dna2[i], selector[i], k);
        }
        lemma_byte_by_bits(child[i], expected[i]);
    }
    assert(child =~= expected);
}

/// The first bytes that give a male kitty.
pub open spec fn male_bytes() -> Set<u8> {
    Set::new(|b: u8| gender_of_byte(b) == KittyGender::Male)
}

/// The first bytes that give a female kitty.
pub open spec fn female_bytes() -> Set<u8> {
    Set::new(|b: u8| gender_of_byte(b) == KittyGender::Female)
}

/// The 256 values of the first genome byte split evenly: every value gives exactly one
/// sex, the even ones male and the odd ones female, 128 values each.
pub proof fn lemma_gender_split()
    ensures
        forall|b: u8| #[trigger] male_bytes().contains(b) <==> b % 2 == 0,
        forall|b: u8| #[trigger] female_bytes().contains(b) <==> b % 2 == 1,
        forall|b: u8| #[trigger] male_bytes().contains(b) != female_bytes().contains(b),
        male_bytes().finite(),
        female_bytes().finite(),
        male_bytes().len() == 128,
        female_bytes().len() == 128,
{
    let half = set_int_range(0, 128);
    lemma_int_range(0, 128);
    let to_male = |i: int| (2 * i) as u8;
    let to_female = |i: int| (2 * i + 1) as u8;
    assert(half.map(to_male) =~= male_bytes()) by {
        assert forall|b: u8| male_bytes().contains(b) implies half.map(to_male).contains(b) by {
            let i = (b / 2) as int;
            assert(half.contains(i));
            assert(to_male(i) == b);
        }
    }
    assert(half.map(to_female) =~= female_bytes()) by {
        assert forall|b: u8| female_bytes().contains(b) implies half.map(to_female).contains(
            b,
        ) by {
            let i = (b / 2) as int;
            assert(half.contains(i));
            assert(to_female(i) == b);
        }
    }
    assert(injective_on(to_male, half));
    assert(injective_on(to_female, half));
    lemma_map_size(half, male_bytes(), to_male);
    lemma_map_size(half, female_bytes(), to_female);
}

} // verus!
