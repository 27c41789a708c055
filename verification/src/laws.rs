//! What holds of the ledger whatever requests it gets.

use crate::genome::{bit_of, lemma_combine_inherits, lemma_kitty_of_dna, spec_combine, Kitty};
use crate::pallet::LedgerState;
use crate::types::{Call, Error, Event, InvalidTransaction, Origin, ValidTransaction};
use vstd::prelude::*;

verus! {

/// The ledger after a sequence of requests, each performed on what the one before left.
pub open spec fn run(state: LedgerState, requests: Seq<(Origin, Call)>) -> LedgerState
    decreases requests.len(),
{
    if requests.len() == 0 {
        state
    } else {
        run(state, requests.drop_last()).dispatch(requests.last().0, requests.last().1).0
    }
}

/// Whether `later` has every kitty of `earlier` under its old id and with its old
/// genome.
pub open spec fn keeps_kitties(earlier: LedgerState, later: LedgerState) -> bool {
    &&& earlier.tokens.len() <= later.tokens.len()
    &&& forall|id: int|
        0 <= id < earlier.tokens.len() ==> (#[trigger] later.tokens[id]).data
            == earlier.tokens[id].data
}

/// Kitties of the same sex never breed: the request fails, no kitty is added and no id
/// is used, whoever asks and whatever the selector would have been.
pub proof fn lemma_same_gender_never_breeds(
    state: LedgerState,
    owner: u64,
    kitty1: Kitty,
    kitty2: Kitty,
    kitty_id_1: u32,
    kitty_id_2: u32,
)
    requires
        kitty1.spec_gender() == kitty2.spec_gender(),
    ensures
        state.do_breed(owner, kitty1, kitty2, kitty_id_1, kitty_id_2) == (
            state,
            Err::<Event, Error>(Error::SameGender),
        ),
{
}

/// A signed breeding request for two kitties of the same sex leaves the ledger as it is,
/// and so does an unsigned one: each fails, and where nothing else is wrong, with
/// `SameGender`.
pub proof fn lemma_breeding_guard(
    state: LedgerState,
    origin: Origin,
    kitty_id_1: u32,
    kitty_id_2: u32,
    nonce: u32,
    solution: u128,
)
    requires
        state.token(kitty_id_1) is Some,
        state.token(kitty_id_2) is Some,
        state.token(kitty_id_1).unwrap().data.spec_gender() == state.token(
            kitty_id_2,
        ).unwrap().data.spec_gender(),
    ensures
        state.breed(origin, kitty_id_1, kitty_id_2).0 == state,
        state.breed(origin, kitty_id_1, kitty_id_2).1 is Err,
        origin matches Origin::Signed(sender) && state.owns(sender, kitty_id_1) && state.owns(
            sender,
            kitty_id_2,
        ) ==> state.breed(origin, kitty_id_1, kitty_id_2).1 == Err::<Event, Error>(
            Error::SameGender,
        ),
        state.auto_breed(origin, kitty_id_1, kitty_id_2, nonce, solution).0 == state,
        state.auto_breed(origin, kitty_id_1, kitty_id_2, nonce, solution).1 is Err,
        origin is Unsigned && state.validate_solution(kitty_id_1, kitty_id_2, nonce, solution)
            ==> state.auto_breed(origin, kitty_id_1, kitty_id_2, nonce, solution).1 == Err::<Event, Error>(
            Error::SameGender,
        ),
{
}

/// The child that breeding adds has 16 bytes, and each of its bits is the bit of the
/// second parent where the selector derived for the owner has a 1, and the bit of the
/// first parent where it has a 0.
pub proof fn lemma_child_inherits(state: LedgerState, owner: u64, kitty1: Kitty, kitty2: Kitty)
    ensures
        state.child_of(owner, kitty1, kitty2).dna() == spec_combine(
            kitty1.dna(),
            kitty2.dna(),
            state.random_value(owner),
        ),
        forall|i: int, k: u8|
            #![trigger bit_of(state.child_of(owner, kitty1, kitty2).dna()[i], k)]
            0 <= i < 16 && k < 8 ==> bit_of(state.child_of(owner, kitty1, kitty2).dna()[i], k)
                == if bit_of(state.random_value(owner)[i], k) {
                bit_of(kitty2.dna()[i], k)
            } else {
                bit_of(kitty1.dna()[i], k)
            },
{
    let selector = state.random_value(owner);
    lemma_kitty_of_dna(spec_combine(kitty1.dna(), kitty2.dna(), selector));
    lemma_combine_inherits(kitty1.dna(), kitty2.dna(), selector);
}

/// Every kitty has exactly one owner, and to every other account it is as if the kitty
/// did not exist.
pub proof fn lemma_exactly_one_owner(state: LedgerState, kitty_id: u32)
    requires
        kitty_id < state.tokens.len(),
    ensures
        state.owns(state.tokens[kitty_id as int].owner, kitty_id),
        forall|a: u64, b: u64|
            state.owns(a, kitty_id) && state.owns(b, kitty_id) ==> a == b,
        forall|other: u64|
            other != state.tokens[kitty_id as int].owner ==> #[trigger] state.kitties(
                other,
                kitty_id,
            ) is None,
{
}

/// A kitty that does not exist has no owner at all.
pub proof fn lemma_no_owner_without_kitty(state: LedgerState, kitty_id: u32)
    requires
        kitty_id >= state.tokens.len(),
    ensures
        forall|who: u64| #[trigger] state.kitties(who, kitty_id) is None,
{
}

/// One request, of any kind and from any origin, leaves a valid ledger valid, keeps
/// every kitty under its id with its genome, and adds at most one.
pub proof fn lemma_dispatch_keeps_kitties(state: LedgerState, origin: Origin, call: Call)
    requires
        state.wf(),
    ensures
        state.dispatch(origin, call).0.wf(),
        keeps_kitties(state, state.dispatch(origin, call).0),
        state.dispatch(origin, call).0.tokens.len() <= state.tokens.len() + 1,
        state.dispatch(origin, call).1 is Err ==> state.dispatch(origin, call).0 == state,
{
    let post = state.dispatch(origin, call).0;
    match call {
        Call::Create => {},
        Call::Breed(kitty_id_1, kitty_id_2) => {},
        Call::Transfer(to, kitty_id) => {},
        Call::SetPrice(kitty_id, new_price) => {},
        Call::Buy(owner, kitty_id, max_price) => {},
        Call::AutoBreed(kitty_id_1, kitty_id_2, nonce, solution) => {},
    }
}

/// After any sequence of requests a valid ledger is still valid, every kitty it had is
/// still there under its id and with its genome, and every kitty has exactly one owner.
pub proof fn lemma_run_keeps_kitties(state: LedgerState, requests: Seq<(Origin, Call)>)
    requires
        state.wf(),
    ensures
        run(state, requests).wf(),
        keeps_kitties(state, run(state, requests)),
        run(state, requests).tokens.len() <= state.tokens.len() + requests.len(),
        forall|id: u32, a: u64, b: u64|
            run(state, requests).owns(a, id) && run(state, requests).owns(b, id) ==> a == b,
    decreases requests.len(),
{
    if requests.len() > 0 {
        let before = run(state, requests.drop_last());
        lemma_run_keeps_kitties(state, requests.drop_last());
        lemma_dispatch_keeps_kitties(before, requests.last().0, requests.last().1);
    }
}

/// Handing a kitty to another account takes it off the market; handing it to oneself
/// changes nothing, so a listing stays.
pub proof fn lemma_transfer_and_listing(state: LedgerState, sender: u64, to: u64, kitty_id: u32)
    requires
        state.owns(sender, kitty_id),
    ensures
        state.transfer(Origin::Signed(sender), to, kitty_id).1 is Ok,
        sender != to ==> {
            &&& state.transfer(Origin::Signed(sender), to, kitty_id).0.price(kitty_id) is None
            &&& state.transfer(Origin::Signed(sender), to, kitty_id).0.owns(to, kitty_id)
        },
        sender == to ==> state.transfer(Origin::Signed(sender), to, kitty_id).0 == state,
        sender == to ==> state.transfer(Origin::Signed(sender), to, kitty_id).0.price(kitty_id)
            == state.price(kitty_id),
{
}

/// Buying is all or nothing. If it succeeds, the kitty was listed, it now belongs to
/// the buyer and is off the market, and exactly its price has gone from the buyer to
/// the seller. If it fails, the ledger is as it was: listing, ownership and balances.
pub proof fn lemma_buy_all_or_nothing(
    state: LedgerState,
    buyer: u64,
    owner: u64,
    kitty_id: u32,
    max_price: u128,
)
    requires
        state.wf(),
    ensures
        state.buy(Origin::Signed(buyer), owner, kitty_id, max_price).1 is Err ==> state.buy(
            Origin::Signed(buyer),
            owner,
            kitty_id,
            max_price,
        ).0 == state,
        state.buy(Origin::Signed(buyer), owner, kitty_id, max_price).1 is Ok ==> {
            let post = state.buy(Origin::Signed(buyer), owner, kitty_id, max_price).0;
            &&& state.price(kitty_id) is Some
            &&& state.price(kitty_id).unwrap() <= max_price
            &&& state.owns(owner, kitty_id)
            &&& buyer != owner
            &&& post.owns(buyer, kitty_id)
            &&& !post.owns(owner, kitty_id)
            &&& post.price(kitty_id) is None
            &&& post.free_balance(buyer) == state.free_balance(buyer) - state.price(
                kitty_id,
            ).unwrap()
            &&& post.free_balance(owner) == state.free_balance(owner) + state.price(
                kitty_id,
            ).unwrap()
            &&& forall|other: u64|
                other != buyer && other != owner ==> #[trigger] post.free_balance(other)
                    == state.free_balance(other)
        },
{
}

/// An offer below the price buys nothing.
pub proof fn lemma_buy_below_price(
    state: LedgerState,
    buyer: u64,
    owner: u64,
    kitty_id: u32,
    max_price: u128,
)
    requires
        buyer != owner,
        state.price(kitty_id) is Some,
        max_price < state.price(kitty_id).unwrap(),
    ensures
        state.buy(Origin::Signed(buyer), owner, kitty_id, max_price) == (
            state,
            Err::<Event, Error>(Error::PriceTooLow),
        ),
{
}

/// No request is admitted twice. Admitting a breeding request moves the nonce on by
/// exactly one, whatever the nonce was, and the same request is then turned away as
/// stale, which changes nothing.
pub proof fn lemma_replay_rejected(state: LedgerState, call: Call)
    requires
        state.validate_unsigned(call).1 is Ok,
    ensures
        state.validate_unsigned(call).0.auto_breed_nonce == state.auto_breed_nonce + 1,
        state.validate_unsigned(call).0 == (LedgerState {
            auto_breed_nonce: (state.auto_breed_nonce + 1) as u32,
            ..state
        }),
        state.validate_unsigned(call).0.validate_unsigned(call) == (
            state.validate_unsigned(call).0,
            Err::<ValidTransaction, InvalidTransaction>(InvalidTransaction::Stale),
        ),
{
}

/// Once a request has been admitted, it is never admitted again, however many other
/// requests are admitted or turned away after it: the nonce only grows, and the request
/// carries the nonce it was admitted under.
pub proof fn lemma_never_admitted_again(state: LedgerState, call: Call, later: Seq<Call>)
    requires
        state.validate_unsigned(call).1 is Ok,
    ensures
        admit_all(state.validate_unsigned(call).0, later).auto_breed_nonce
            > state.auto_breed_nonce,
        admit_all(state.validate_unsigned(call).0, later).validate_unsigned(call).1 is Err,
    decreases later.len(),
{
    if later.len() > 0 {
        lemma_never_admitted_again(state, call, later.drop_last());
    }
}

/// The ledger after the admission of a sequence of unsigned requests has been decided,
/// one after the other.
pub open spec fn admit_all(state: LedgerState, calls: Seq<Call>) -> LedgerState
    decreases calls.len(),
{
    if calls.len() == 0 {
        state
    } else {
        admit_all(state, calls.drop_last()).validate_unsigned(calls.last()).0
    }
}

/// A request that is turned away leaves the nonce, and everything else, as it was.
pub proof fn lemma_rejection_changes_nothing(state: LedgerState, call: Call)
    requires
        state.validate_unsigned(call).1 is Err,
    ensures
        state.validate_unsigned(call).0 == state,
{
}

} // verus!
