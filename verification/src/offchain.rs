//! The background sweep that proposes breeding requests: it picks a pair of kitties of
//! different sex at random and searches for a proof of work that admits them.

use crate::pallet::{LedgerState, Pallet};
use crate::types::Call;
use rand_chacha::rand_core::{Rng, SeedableRng};
use rand_chacha::ChaCha20Rng;
use vstd::prelude::*;

verus! {

/// How many attempts at a breedable pair one sweep makes at most. Every attempt that
/// fails takes one from the solutions that are tried for the pair that is found.
pub const MAX_ITERATIONS: u32 = 500;

/// How many random words one sweep may use: two for every pair it may try, and one for
/// the solutions.
pub const DRAWS: usize = 1001;

/// The ChaCha generator of `rand_chacha`, of which nothing is known here but which seed
/// it was made from and how many words it has given.
#[verifier::external_type_specification]
#[verifier::external_body]
pub struct ExChaCha20Rng(rand_chacha::ChaCha20Rng);

/// The word that a ChaCha20 generator seeded with `seed` gives after it has given
/// `position` words.
pub uninterp spec fn chacha20_word(seed: Seq<u8>, position: nat) -> u32;

/// The seed a generator was made from.
pub uninterp spec fn rng_seed(rng: ChaCha20Rng) -> Seq<u8>;

/// How many words a generator has given since it was seeded.
pub uninterp spec fn rng_position(rng: ChaCha20Rng) -> nat;

/// Seeds a generator with `from_seed` of `rand_chacha::ChaCha20Rng`. Not proved: that the
/// generator is made from this seed alone and has given no word yet.
#[verifier::external_body]
fn rng_from_seed(seed: [u8; 32]) -> (rng: ChaCha20Rng)
    ensures
        rng_seed(rng) == seed@,
        rng_position(rng) == 0,
{
    ChaCha20Rng::from_seed(seed)
}

/// Takes the next word from a generator, with `next_u32` of `rand_chacha::ChaCha20Rng`.
/// Not proved: that the word depends on nothing but the seed and the number of words
/// given before, and that the generator then stands one word further on with its seed
/// unchanged.
#[verifier::external_body]
fn rng_next_u32(rng: &mut ChaCha20Rng) -> (word: u32)
    ensures
        word == chacha20_word(rng_seed(*old(rng)), rng_position(*old(rng))),
        rng_seed(*final(rng)) == rng_seed(*old(rng)),
        rng_position(*final(rng)) == rng_position(*old(rng)) + 1,
{
    rng.next_u32()
}

/// The random words of a sweep whose generator is seeded with `seed`: the first `DRAWS`
/// words of the generator, in order.
pub open spec fn sweep_draws(seed: Seq<u8>) -> Seq<u32> {
    Seq::new(DRAWS as nat, |i: int| chacha20_word(seed, i as nat))
}

/// The solution made of a random prefix and a counter: the prefix in the bits from 32
/// upwards, the counter below.
pub open spec fn solution_at(prefix: u32, counter: int) -> u128 {
    (prefix as int * 0x1_0000_0000 + counter) as u128
}

impl LedgerState {
    /// The pair that the given attempt samples: two words, each reduced modulo the
    /// number of kitties.
    pub open spec fn candidate(self, draws: Seq<u32>, attempt: int) -> (u32, u32) {
        (
            (draws[2 * attempt] as int % self.tokens.len() as int) as u32,
            (draws[2 * attempt + 1] as int % self.tokens.len() as int) as u32,
        )
    }

    /// Whether both kitties exist and differ in sex.
    pub open spec fn breedable(self, pair: (u32, u32)) -> bool {
        match (self.token(pair.0), self.token(pair.1)) {
            (Some(token1), Some(token2)) => token1.data.spec_gender()
                != token2.data.spec_gender(),
            _ => false,
        }
    }

    /// Whether `attempt` is the first attempt that samples a breedable pair.
    pub open spec fn selects(self, draws: Seq<u32>, attempt: int) -> bool {
        &&& 0 <= attempt < MAX_ITERATIONS
        &&& self.breedable(self.candidate(draws, attempt))
        &&& forall|earlier: int|
            0 <= earlier < attempt ==> !self.breedable(#[trigger] self.candidate(draws, earlier))
    }

    /// Whether no attempt samples a breedable pair.
    pub open spec fn no_pair(self, draws: Seq<u32>) -> bool {
        forall|attempt: int|
            0 <= attempt < MAX_ITERATIONS ==> !self.breedable(
                #[trigger] self.candidate(draws, attempt),
            )
    }

    /// Whether the solution with this counter proves work for the pair under the
    /// current nonce.
    pub open spec fn proves(self, pair: (u32, u32), prefix: u32, counter: int) -> bool {
        self.validate_solution(pair.0, pair.1, self.auto_breed_nonce, solution_at(prefix, counter))
    }

    /// Whether `counter` is the first counter within the budget whose solution is valid.
    pub open spec fn solves(self, pair: (u32, u32), prefix: u32, budget: int, counter: int) -> bool {
        &&& 0 <= counter < budget
        &&& self.proves(pair, prefix, counter)
        &&& forall|earlier: int| 0 <= earlier < counter ==> !#[trigger] self.proves(pair, prefix, earlier)
    }

    /// Whether `counter` is the first counter within the budget whose solution is valid,
    /// and `solution` is that solution.
    pub open spec fn finds(
        self,
        pair: (u32, u32),
        prefix: u32,
        budget: int,
        counter: int,
        solution: u128,
    ) -> bool {
        &&& self.solves(pair, prefix, budget, counter)
        &&& solution == solution_at(prefix, counter)
    }

    /// Whether no counter within the budget gives a valid solution.
    pub open spec fn no_solution(self, pair: (u32, u32), prefix: u32, budget: int) -> bool {
        forall|counter: int| 0 <= counter < budget ==> !#[trigger] self.proves(pair, prefix, counter)
    }

    /// Whether `attempt` is the first that samples a breedable pair, and none of the
    /// counters that are left for it gives a valid solution. The prefix is the word after
    /// the pair; as many counters are left as attempts, this one included.
    pub open spec fn gives_up(self, draws: Seq<u32>, attempt: int) -> bool {
        &&& self.selects(draws, attempt)
        &&& self.no_solution(
            self.candidate(draws, attempt),
            draws[2 * attempt + 2],
            MAX_ITERATIONS - attempt,
        )
    }

    /// Whether `attempt` is the first that samples a breedable pair, `counter` is the
    /// first of the counters left for it that gives a valid solution, and `call` is the
    /// request to breed that pair with that solution under the current nonce.
    pub open spec fn proposes(self, draws: Seq<u32>, attempt: int, counter: int, call: Call) -> bool {
        &&& self.selects(draws, attempt)
        &&& self.solves(
            self.candidate(draws, attempt),
            draws[2 * attempt + 2],
            MAX_ITERATIONS - attempt,
            counter,
        )
        &&& call == Call::AutoBreed(
            self.candidate(draws, attempt).0,
            self.candidate(draws, attempt).1,
            self.auto_breed_nonce,
            solution_at(draws[2 * attempt + 2], counter),
        )
    }

    /// Whether `outcome` is what a sweep with these random words comes to. With no
    /// kitties there is nothing to do. Else the sweep fails if no attempt samples a
    /// breedable pair. The first attempt that does fixes the pair: the first valid
    /// solution for it is proposed, and if there is none, nothing.
    pub open spec fn plans(self, draws: Seq<u32>, outcome: Result<Option<Call>, ()>) -> bool {
        if self.tokens.len() == 0 {
            outcome == Ok::<Option<Call>, ()>(None)
        } else {
            match outcome {
                Err(_) => self.no_pair(draws),
                Ok(None) => exists|attempt: int| #[trigger] self.gives_up(draws, attempt),
                Ok(Some(call)) => exists|attempt: int, counter: int|
                    #[trigger] self.proposes(draws, attempt, counter, call),
            }
        }
    }
}

/// Random words and ledger fix the outcome of a sweep: two outcomes of the same sweep
/// are the same.
pub proof fn lemma_plan_unique(
    state: LedgerState,
    draws: Seq<u32>,
    first: Result<Option<Call>, ()>,
    second: Result<Option<Call>, ()>,
)
    requires
        draws.len() == DRAWS,
        state.plans(draws, first),
        state.plans(draws, second),
    ensures
        first == second,
{
    if state.tokens.len() != 0 {
        lemma_plan_cases(state, draws, first);
        lemma_plan_cases(state, draws, second);
        let a = plan_attempt(state, draws, first);
        let b = plan_attempt(state, draws, second);
        match (first, second) {
            (Err(e1), Err(e2)) => {
                assert(e1 == e2);
            },
            (Err(_), Ok(_)) => {
                assert(!state.breedable(state.candidate(draws, b)));
            },
            (Ok(_), Err(_)) => {
                assert(!state.breedable(state.candidate(draws, a)));
            },
            (Ok(found1), Ok(found2)) => {
                lemma_selects_unique(state, draws, a, b);
                let pair = state.candidate(draws, a);
                let prefix = draws[2 * a + 2];
                let i = plan_counter(state, draws, first);
                let j = plan_counter(state, draws, second);
                match (found1, found2) {
                    (Some(_), Some(_)) => {
                        if i < j {
                            assert(!state.proves(pair, prefix, i));
                        } else if j < i {
                            assert(!state.proves(pair, prefix, j));
                        }
                    },
                    (Some(_), None) => {
                        assert(!state.proves(pair, prefix, i));
                    },
                    (None, Some(_)) => {
                        assert(!state.proves(pair, prefix, j));
                    },
                    (None, None) => {},
                }
            },
        }
    }
}

/// The attempt that an outcome with a pair rests on.
spec fn plan_attempt(state: LedgerState, draws: Seq<u32>, outcome: Result<Option<Call>, ()>) -> int {
    match outcome {
        Err(_) => 0,
        Ok(None) => choose|attempt: int| #[trigger] state.gives_up(draws, attempt),
        Ok(Some(call)) => (choose|attempt: int, counter: int|
            #[trigger] state.proposes(draws, attempt, counter, call)).0,
    }
}

/// The counter that an outcome with a solution rests on.
spec fn plan_counter(state: LedgerState, draws: Seq<u32>, outcome: Result<Option<Call>, ()>) -> int {
    match outcome {
        Ok(Some(call)) => (choose|attempt: int, counter: int|
            #[trigger] state.proposes(draws, attempt, counter, call)).1,
        _ => 0,
    }
}

/// What an outcome says of the attempt and the counter it rests on.
proof fn lemma_plan_cases(state: LedgerState, draws: Seq<u32>, outcome: Result<Option<Call>, ()>)
    requires
        state.tokens.len() != 0,
        state.plans(draws, outcome),
    ensures
        outcome is Err ==> state.no_pair(draws),
        outcome matches Ok(None) ==> state.gives_up(draws, plan_attempt(state, draws, outcome)),
        outcome matches Ok(Some(call)) ==> state.proposes(
            draws,
            plan_attempt(state, draws, outcome),
            plan_counter(state, draws, outcome),
            call,
        ),
{
}

/// Only one attempt can be the first with a breedable pair.
proof fn lemma_selects_unique(state: LedgerState, draws: Seq<u32>, a: int, b: int)
    requires
        state.selects(draws, a),
        state.selects(draws, b),
    ensures
        a == b,
{
    if a < b {
        assert(!state.breedable(state.candidate(draws, a)));
    } else if b < a {
        assert(!state.breedable(state.candidate(draws, b)));
    }
}

impl Pallet {
    /// Whether both kitties exist and differ in sex.
    pub fn breedable(&self, kitty_id_1: u32, kitty_id_2: u32) -> (ok: bool)
        ensures
            ok == self@.breedable((kitty_id_1, kitty_id_2)),
    {
        match (self.tokens(kitty_id_1), self.tokens(kitty_id_2)) {
            (Some(token1), Some(token2)) => token1.data.gender() != token2.data.gender(),
            _ => false,
        }
    }

    /// Goes through the attempts in order and returns the first that samples a
    /// breedable pair, with the pair. Without kitties there is no such attempt.
    pub fn select_pair(&self, draws: &[u32; 1001]) -> (found: Option<(u32, u32, u32)>)
        requires
            self.wf(),
        ensures
            match found {
                Some((attempt, kitty_id_1, kitty_id_2)) => {
                    &&& self@.selects(draws@, attempt as int)
                    &&& (kitty_id_1, kitty_id_2) == self@.candidate(draws@, attempt as int)
                },
                None => self@.no_pair(draws@),
            },
    {
        let kitty_count = self.next_kitty_id();
        if kitty_count == 0 {
            return None;
        }
        let mut attempt: u32 = 0;
        while attempt < MAX_ITERATIONS
            invariant
                attempt <= MAX_ITERATIONS,
                kitty_count == self@.tokens.len(),
                kitty_count > 0,
                forall|earlier: int|
                    0 <= earlier < attempt ==> !self@.breedable(
                        #[trigger] self@.candidate(draws@, earlier),
                    ),
            decreases MAX_ITERATIONS - attempt,
        {
            let kitty_id_1 = draws[2 * attempt as usize] % kitty_count;
            let kitty_id_2 = draws[2 * attempt as usize + 1] % kitty_count;
            if self.breedable(kitty_id_1, kitty_id_2) {
                return Some((attempt, kitty_id_1, kitty_id_2));
            }
            attempt += 1;
        }
        None
    }

    /// Tries the counters below `budget` in order and returns the first solution that
    /// proves work for the pair under the current nonce.
    pub fn search_solution(&self, kitty_id_1: u32, kitty_id_2: u32, prefix: u32, budget: u32) -> (found:
        Option<u128>)
        requires
            self.wf(),
        ensures
            match found {
                Some(solution) => exists|counter: int|
                    #![trigger solution_at(prefix, counter)]
                    self@.finds((kitty_id_1, kitty_id_2), prefix, budget as int, counter, solution),
                None => self@.no_solution((kitty_id_1, kitty_id_2), prefix, budget as int),
            },
    {
        let nonce = self.auto_breed_nonce();
        let mut counter: u32 = 0;
        while counter < budget
            invariant
                counter <= budget,
                self.wf(),
                nonce == self@.auto_breed_nonce,
                forall|earlier: int|
                    0 <= earlier < counter ==> !#[trigger] self@.proves(
                        (kitty_id_1, kitty_id_2),
                        prefix,
                        earlier,
                    ),
            decreases budget - counter,
        {
            let solution: u128 = prefix as u128 * 0x1_0000_0000 + counter as u128;
            assert(solution == solution_at(prefix, counter as int));
            if self.validate_solution(kitty_id_1, kitty_id_2, nonce, solution) {
                assert(self@.finds(
                    (kitty_id_1, kitty_id_2),
                    prefix,
                    budget as int,
                    counter as int,
                    solution,
                ));
                return Some(solution);
            }
            counter += 1;
        }
        None
    }

    /// What a sweep with these random words proposes: the request to submit, if a pair
    /// and a proof are found; nothing, if there are no kitties or no proof is found; a
    /// failure, if no breedable pair is found. The ledger is only read.
    pub fn plan_auto_breed(&self, draws: &[u32; 1001]) -> (outcome: Result<Option<Call>, ()>)
        requires
            self.wf(),
        ensures
            self@.plans(draws@, outcome),
    {
        if self.next_kitty_id() == 0 {
            return Ok(None);
        }
        let (attempt, kitty_id_1, kitty_id_2) = match self.select_pair(draws) {
            Some(found) => found,
            None => {
                return Err(());
            },
        };
        let prefix = draws[2 * attempt as usize + 2];
        let remaining = MAX_ITERATIONS - attempt;
        match self.search_solution(kitty_id_1, kitty_id_2, prefix, remaining) {
            Some(solution) => {
                let call = Call::AutoBreed(kitty_id_1, kitty_id_2, self.auto_breed_nonce(), solution);
                proof {
                    let counter = choose|counter: int|
                        #![trigger solution_at(prefix, counter)]
                        self@.finds(
                            (kitty_id_1, kitty_id_2),
                            prefix,
                            remaining as int,
                            counter,
                            solution,
                        );
                    assert(self@.proposes(draws@, attempt as int, counter, call));
                }
                Ok(Some(call))
            },
            None => {
                proof {
                    assert(self@.gives_up(draws@, attempt as int));
                }
                Ok(None)
            },
        }
    }

    /// Runs one sweep with a generator seeded by `seed`: the outcome is what `plans` says
    /// for the words of that generator.
    pub fn run_offchain_worker(&self, seed: [u8; 32]) -> (outcome: Result<Option<Call>, ()>)
        requires
            self.wf(),
        ensures
            self@.plans(sweep_draws(seed@), outcome),
    {
        let mut rng = rng_from_seed(seed);
        let mut draws: [u32; 1001] = [0u32; 1001];
        let mut i: usize = 0;
        while i < DRAWS
            invariant
                i <= DRAWS,
                rng_seed(rng) == seed@,
                rng_position(rng) == i,
                forall|j: int| 0 <= j < i ==> draws@[j] == chacha20_word(seed@, j as nat),
            decreases DRAWS - i,
        {
            draws[i] = rng_next_u32(&mut rng);
            i += 1;
        }
        proof {
            assert(draws@ =~= sweep_draws(seed@));
        }
        self.plan_auto_breed(&draws)
    }
}

} // verus!
