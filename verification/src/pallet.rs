//! The ledger of kitties: who owns which kitty, what each is listed for, what each
//! account holds, and the requests that change it.

use crate::genome::{combine, kitty_of_dna, spec_combine, Kitty};
use crate::hashing::{check_proof, random_genome, spec_check_proof, spec_random_genome};
use crate::types::{
    Call, Config, Error, Event, InvalidTransaction, Origin, TokenInfo, ValidTransaction,
};
use std::collections::HashMap;
use vstd::prelude::*;
use vstd::std_specs::hash::*;

verus! {

broadcast use vstd::std_specs::hash::group_hash_axioms;

/// For how many blocks an admitted breeding request stays valid.
pub const AUTO_BREED_LONGEVITY: u64 = 64;

/// The ledger as a mathematical value.
#[verifier::ext_equal]
pub struct LedgerState {
    pub config: Config,
    /// The randomness seed of the current block.
    pub random_seed: Seq<u8>,
    /// The position of the current request in its block, if it has one.
    pub extrinsic_index: Option<u32>,
    /// All kitties; the id of a kitty is its position.
    pub tokens: Seq<TokenInfo>,
    /// The listed kitties with their prices.
    pub prices: Map<u32, u128>,
    /// The accounts that hold anything, with their balances.
    pub balances: Map<u64, u128>,
    /// How many autonomous breeding requests have been admitted.
    pub auto_breed_nonce: u32,
}

impl LedgerState {
    /// What holds of every ledger: the configuration is valid, the seed has 32 bytes, no
    /// id lies outside the id space, and only kitties that exist are listed.
    pub open spec fn wf(self) -> bool {
        &&& self.config.wf()
        &&& self.random_seed.len() == 32
        &&& self.tokens.len() <= self.config.kitty_id_limit
        &&& forall|id: u32| self.prices.contains_key(id) ==> id < self.tokens.len()
    }

    /// The kitty with this id and its owner, if there is one.
    pub open spec fn token(self, kitty_id: u32) -> Option<TokenInfo> {
        if kitty_id < self.tokens.len() {
            Some(self.tokens[kitty_id as int])
        } else {
            None
        }
    }

    /// Whether `owner` owns the kitty `kitty_id`.
    pub open spec fn owns(self, owner: u64, kitty_id: u32) -> bool {
        kitty_id < self.tokens.len() && self.tokens[kitty_id as int].owner == owner
    }

    /// The kitty `kitty_id` if `owner` owns it; nothing if it does not exist or belongs
    /// to another account.
    pub open spec fn kitties(self, owner: u64, kitty_id: u32) -> Option<Kitty> {
        if self.owns(owner, kitty_id) {
            Some(self.tokens[kitty_id as int].data)
        } else {
            None
        }
    }

    /// The price the kitty is listed for, if it is listed.
    pub open spec fn price(self, kitty_id: u32) -> Option<u128> {
        if self.prices.contains_key(kitty_id) {
            Some(self.prices[kitty_id])
        } else {
            None
        }
    }

    /// What the account holds; an account that was never paid holds nothing.
    pub open spec fn free_balance(self, who: u64) -> u128 {
        if self.balances.contains_key(who) {
            self.balances[who]
        } else {
            0
        }
    }

    /// The genome that a request of `sender` derives now.
    pub open spec fn random_value(self, sender: u64) -> Seq<u8> {
        spec_random_genome(self.random_seed, sender, self.extrinsic_index)
    }

    /// The ledger with one more kitty, which gets the next id.
    pub open spec fn with_kitty(self, owner: u64, kitty: Kitty) -> LedgerState {
        LedgerState { tokens: self.tokens.push(TokenInfo { owner, data: kitty }), ..self }
    }

    /// The ledger with the kitty `kitty_id` handed to `to`.
    pub open spec fn with_owner(self, kitty_id: u32, to: u64) -> LedgerState {
        LedgerState {
            tokens: self.tokens.update(
                kitty_id as int,
                TokenInfo { owner: to, data: self.tokens[kitty_id as int].data },
            ),
            ..self
        }
    }

    /// The ledger with the listing of `kitty_id` set to `price`, or removed.
    pub open spec fn with_price(self, kitty_id: u32, price: Option<u128>) -> LedgerState {
        LedgerState {
            prices: match price {
                Some(p) => self.prices.insert(kitty_id, p),
                None => self.prices.remove(kitty_id),
            },
            ..self
        }
    }

    /// Why `from` cannot pay `value` to `to`, if it cannot: it holds less, the payee
    /// would hold more than fits, or the payer would be left below the existential
    /// deposit. Paying nothing, or paying oneself, always works.
    pub open spec fn payment_error(self, from: u64, to: u64, value: u128) -> Option<Error> {
        if value == 0 || from == to {
            None
        } else if self.free_balance(from) < value {
            Some(Error::InsufficientBalance)
        } else if self.free_balance(to) + value > u128::MAX {
            Some(Error::BalanceOverflow)
        } else if self.free_balance(from) - value < self.config.existential_deposit {
            Some(Error::KeepAlive)
        } else {
            None
        }
    }

    /// The ledger after `from` has paid `value` to `to`.
    pub open spec fn with_payment(self, from: u64, to: u64, value: u128) -> LedgerState {
        if value == 0 || from == to {
            self
        } else {
            LedgerState {
                balances: self.balances.insert(
                    from,
                    (self.free_balance(from) - value) as u128,
                ).insert(to, (self.free_balance(to) + value) as u128),
                ..self
            }
        }
    }

    /// Adds a kitty under the next id, unless the id space is used up.
    pub open spec fn mint(self, owner: u64, kitty: Kitty) -> (LedgerState, Result<u32, Error>) {
        if self.tokens.len() >= self.config.kitty_id_limit {
            (self, Err(Error::KittyIdOverflow))
        } else {
            (self.with_kitty(owner, kitty), Ok(self.tokens.len() as u32))
        }
    }

    /// A signed request creates a kitty with a fresh genome for its sender.
    pub open spec fn create(self, origin: Origin) -> (LedgerState, Result<Event, Error>) {
        match origin {
            Origin::Unsigned => (self, Err(Error::BadOrigin)),
            Origin::Signed(sender) => {
                let kitty = kitty_of_dna(self.random_value(sender));
                match self.mint(sender, kitty).1 {
                    Ok(kitty_id) => (
                        self.mint(sender, kitty).0,
                        Ok(Event::KittyCreated(sender, kitty_id, kitty)),
                    ),
                    Err(e) => (self, Err(e)),
                }
            },
        }
    }

    /// The child of two kitties under the selector that a request of `owner` derives now.
    pub open spec fn child_of(self, owner: u64, kitty1: Kitty, kitty2: Kitty) -> Kitty {
        kitty_of_dna(spec_combine(kitty1.dna(), kitty2.dna(), self.random_value(owner)))
    }

    /// Two kitties of different sex get a child, which `owner` owns. Kitties of the same
    /// sex get none, and the ledger stays as it is.
    pub open spec fn do_breed(
        self,
        owner: u64,
        kitty1: Kitty,
        kitty2: Kitty,
        kitty_id_1: u32,
        kitty_id_2: u32,
    ) -> (LedgerState, Result<Event, Error>) {
        if kitty1.spec_gender() == kitty2.spec_gender() {
            (self, Err(Error::SameGender))
        } else {
            let child = self.child_of(owner, kitty1, kitty2);
            match self.mint(owner, child).1 {
                Ok(kitty_id) => (
                    self.mint(owner, child).0,
                    Ok(Event::KittyBred(owner, kitty_id, child, kitty_id_1, kitty_id_2)),
                ),
                Err(e) => (self, Err(e)),
            }
        }
    }

    /// A signed request breeds two kitties of its sender.
    pub open spec fn breed(self, origin: Origin, kitty_id_1: u32, kitty_id_2: u32) -> (
        LedgerState,
        Result<Event, Error>,
    ) {
        match origin {
            Origin::Unsigned => (self, Err(Error::BadOrigin)),
            Origin::Signed(sender) => match (
                self.kitties(sender, kitty_id_1),
                self.kitties(sender, kitty_id_2),
            ) {
                (Some(kitty1), Some(kitty2)) => self.do_breed(
                    sender,
                    kitty1,
                    kitty2,
                    kitty_id_1,
                    kitty_id_2,
                ),
                _ => (self, Err(Error::InvalidKittyId)),
            },
        }
    }

    /// A signed request hands a kitty of its sender to `to`, which takes the kitty off
    /// the market. Handing it to oneself changes nothing.
    pub open spec fn transfer(self, origin: Origin, to: u64, kitty_id: u32) -> (
        LedgerState,
        Result<Option<Event>, Error>,
    ) {
        match origin {
            Origin::Unsigned => (self, Err(Error::BadOrigin)),
            Origin::Signed(sender) => if !self.owns(sender, kitty_id) {
                (self, Err(Error::InvalidKittyId))
            } else if sender == to {
                (self, Ok(None))
            } else {
                (
                    self.with_owner(kitty_id, to).with_price(kitty_id, None),
                    Ok(
                        Some(
                            Event::KittyTransferred(
                                sender,
                                to,
                                kitty_id,
                                self.tokens[kitty_id as int].data,
                            ),
                        ),
                    ),
                )
            },
        }
    }

    /// A signed request lists a kitty of its sender for a price, or takes it off the
    /// market.
    pub open spec fn set_price(self, origin: Origin, kitty_id: u32, new_price: Option<u128>) -> (
        LedgerState,
        Result<Event, Error>,
    ) {
        match origin {
            Origin::Unsigned => (self, Err(Error::BadOrigin)),
            Origin::Signed(sender) => if !self.owns(sender, kitty_id) {
                (self, Err(Error::NotOwner))
            } else {
                (
                    self.with_price(kitty_id, new_price),
                    Ok(
                        Event::KittyPriceUpdated(
                            sender,
                            kitty_id,
                            self.tokens[kitty_id as int].data,
                            new_price,
                        ),
                    ),
                )
            },
        }
    }

    /// A signed request buys a listed kitty from `owner` for its price, if the sender
    /// offers that much and can pay it. Then the kitty is off the market, belongs to the
    /// sender, and the price has gone from the sender to `owner`. Else nothing changes.
    pub open spec fn buy(self, origin: Origin, owner: u64, kitty_id: u32, max_price: u128) -> (
        LedgerState,
        Result<Event, Error>,
    ) {
        match origin {
            Origin::Unsigned => (self, Err(Error::BadOrigin)),
            Origin::Signed(sender) => if sender == owner {
                (self, Err(Error::BuyFromSelf))
            } else {
                match self.price(kitty_id) {
                    None => (self, Err(Error::NotForSale)),
                    Some(price) => if max_price < price {
                        (self, Err(Error::PriceTooLow))
                    } else if !self.owns(owner, kitty_id) {
                        (self, Err(Error::InvalidKittyId))
                    } else {
                        match self.payment_error(sender, owner, price) {
                            Some(e) => (self, Err(e)),
                            None => (
                                self.with_price(kitty_id, None).with_owner(
                                    kitty_id,
                                    sender,
                                ).with_payment(sender, owner, price),
                                Ok(
                                    Event::KittySold(
                                        owner,
                                        sender,
                                        kitty_id,
                                        self.tokens[kitty_id as int].data,
                                        price,
                                    ),
                                ),
                            ),
                        }
                    },
                }
            },
        }
    }

    /// Whether `solution` proves work for breeding the two kitties under `nonce`, at the
    /// difficulty of this ledger.
    pub open spec fn validate_solution(
        self,
        kitty_id_1: u32,
        kitty_id_2: u32,
        nonce: u32,
        solution: u128,
    ) -> bool {
        spec_check_proof(self.config.default_difficulty, kitty_id_1, kitty_id_2, nonce, solution)
    }

    /// An unsigned request with a valid proof breeds the two kitties it names; the child
    /// belongs to the owner of the first.
    pub open spec fn auto_breed(
        self,
        origin: Origin,
        kitty_id_1: u32,
        kitty_id_2: u32,
        nonce: u32,
        solution: u128,
    ) -> (LedgerState, Result<Event, Error>) {
        match origin {
            Origin::Signed(_) => (self, Err(Error::BadOrigin)),
            Origin::Unsigned => if !self.validate_solution(
                kitty_id_1,
                kitty_id_2,
                nonce,
                solution,
            ) {
                (self, Err(Error::InvalidProof))
            } else {
                match (self.token(kitty_id_1), self.token(kitty_id_2)) {
                    (Some(token1), Some(token2)) => self.do_breed(
                        token1.owner,
                        token1.data,
                        token2.data,
                        kitty_id_1,
                        kitty_id_2,
                    ),
                    _ => (self, Err(Error::InvalidKittyId)),
                }
            },
        }
    }

    /// An autonomous breeding request is admitted if its proof is valid, its nonce is the
    /// current one, and the nonce can move on; admitting it moves the nonce on by one. A
    /// request that is turned away changes nothing. No other request is admitted
    /// unsigned.
    pub open spec fn validate_unsigned(self, call: Call) -> (
        LedgerState,
        Result<ValidTransaction, InvalidTransaction>,
    ) {
        match call {
            Call::AutoBreed(kitty_id_1, kitty_id_2, nonce, solution) => if !self.validate_solution(
                kitty_id_1,
                kitty_id_2,
                nonce,
                solution,
            ) {
                (self, Err(InvalidTransaction::BadProof))
            } else if nonce != self.auto_breed_nonce {
                (self, Err(InvalidTransaction::Stale))
            } else if self.auto_breed_nonce == u32::MAX {
                (self, Err(InvalidTransaction::ExhaustsResources))
            } else {
                (
                    LedgerState { auto_breed_nonce: (self.auto_breed_nonce + 1) as u32, ..self },
                    Ok(
                        ValidTransaction {
                            priority: 0,
                            longevity: AUTO_BREED_LONGEVITY,
                            propagate: true,
                        },
                    ),
                )
            },
            _ => (self, Err(InvalidTransaction::Call)),
        }
    }

    /// The request `call` of `origin`, whatever its kind.
    pub open spec fn dispatch(self, origin: Origin, call: Call) -> (
        LedgerState,
        Result<Option<Event>, Error>,
    ) {
        match call {
            Call::Create => (self.create(origin).0, some_event(self.create(origin).1)),
            Call::Breed(kitty_id_1, kitty_id_2) => (
                self.breed(origin, kitty_id_1, kitty_id_2).0,
                some_event(self.breed(origin, kitty_id_1, kitty_id_2).1),
            ),
            Call::Transfer(to, kitty_id) => self.transfer(origin, to, kitty_id),
            Call::SetPrice(kitty_id, new_price) => (
                self.set_price(origin, kitty_id, new_price).0,
                some_event(self.set_price(origin, kitty_id, new_price).1),
            ),
            Call::Buy(owner, kitty_id, max_price) => (
                self.buy(origin, owner, kitty_id, max_price).0,
                some_event(self.buy(origin, owner, kitty_id, max_price).1),
            ),
            Call::AutoBreed(kitty_id_1, kitty_id_2, nonce, solution) => (
                self.auto_breed(origin, kitty_id_1, kitty_id_2, nonce, solution).0,
                some_event(self.auto_breed(origin, kitty_id_1, kitty_id_2, nonce, solution).1),
            ),
        }
    }
}

/// The same outcome, with the event as an optional one.
pub open spec fn some_event(result: Result<Event, Error>) -> Result<Option<Event>, Error> {
    match result {
        Ok(event) => Ok(Some(event)),
        Err(e) => Err(e),
    }
}

/// The ledger.
pub struct Pallet {
    config: Config,
    random_seed: [u8; 32],
    extrinsic_index: Option<u32>,
    tokens: Vec<TokenInfo>,
    prices: HashMap<u32, u128>,
    balances: HashMap<u64, u128>,
    auto_breed_nonce: u32,
}

/// What a ledger starts from.
pub struct GenesisConfig {
    pub config: Config,
}

impl View for Pallet {
    type V = LedgerState;

    closed spec fn view(&self) -> LedgerState {
        LedgerState {
            config: self.config,
            random_seed: self.random_seed@,
            extrinsic_index: self.extrinsic_index,
            tokens: self.tokens@,
            prices: self.prices@,
            balances: self.balances@,
            auto_breed_nonce: self.auto_breed_nonce,
        }
    }
}

impl GenesisConfig {
    /// The ledger this configuration starts: no kitties, no listings, no balances, the
    /// nonce at zero, a seed of zeros and no request index.
    pub open spec fn spec_build(&self) -> LedgerState {
        LedgerState {
            config: self.config,
            random_seed: Seq::new(32, |i: int| 0u8),
            extrinsic_index: None,
            tokens: Seq::empty(),
            prices: Map::empty(),
            balances: Map::empty(),
            auto_breed_nonce: 0,
        }
    }

    /// Starts an empty ledger.
    pub fn build(&self) -> (pallet: Pallet)
        requires
            self.config.wf(),
        ensures
            pallet.wf(),
            pallet@ == self.spec_build(),
    {
        let pallet = Pallet {
            config: self.config,
            random_seed: [0u8; 32],
            extrinsic_index: None,
            tokens: Vec::new(),
            prices: HashMap::new(),
            balances: HashMap::new(),
            auto_breed_nonce: 0,
        };
        proof {
            assert(pallet@.random_seed =~= self.spec_build().random_seed);
            assert(pallet@.tokens =~= self.spec_build().tokens);
        }
        pallet
    }
}

impl Pallet {
    /// Whether the ledger is in a valid state.
    pub open spec fn wf(&self) -> bool {
        self@.wf()
    }

    /// The configuration the ledger was started with.
    pub fn config(&self) -> (config: Config)
        ensures
            config == self@.config,
    {
        self.config
    }

    /// How many autonomous breeding requests have been admitted.
    pub fn auto_breed_nonce(&self) -> (nonce: u32)
        ensures
            nonce == self@.auto_breed_nonce,
    {
        self.auto_breed_nonce
    }

    /// The id that the next kitty gets, which is the number of kitties.
    pub fn next_kitty_id(&self) -> (next: u32)
        requires
            self.wf(),
        ensures
            next == self@.tokens.len(),
    {
        self.tokens.len() as u32
    }

    /// The price the kitty is listed for, if it is listed.
    pub fn prices(&self, kitty_id: u32) -> (price: Option<u128>)
        ensures
            price == self@.price(kitty_id),
    {
        match self.prices.get(&kitty_id) {
            Some(p) => Some(*p),
            None => None,
        }
    }

    /// What the account holds.
    pub fn free_balance(&self, who: u64) -> (balance: u128)
        ensures
            balance == self@.free_balance(who),
    {
        match self.balances.get(&who) {
            Some(b) => *b,
            None => 0,
        }
    }

    /// The kitty with this id and its owner, if there is one.
    pub fn tokens(&self, kitty_id: u32) -> (token: Option<TokenInfo>)
        ensures
            token == self@.token(kitty_id),
    {
        if (kitty_id as usize) < self.tokens.len() {
            Some(self.tokens[kitty_id as usize])
        } else {
            None
        }
    }

    /// The kitty `kitty_id` if `owner` owns it. A kitty of another account is reported
    /// like one that does not exist.
    pub fn kitties(&self, owner: u64, kitty_id: u32) -> (kitty: Option<Kitty>)
        ensures
            kitty == self@.kitties(owner, kitty_id),
            kitty is Some <==> self@.owns(owner, kitty_id),
    {
        match self.tokens(kitty_id) {
            Some(token) => if token.owner == owner {
                Some(token.data)
            } else {
                None
            },
            None => None,
        }
    }

    /// Sets the randomness seed that the next requests derive genomes from.
    pub fn set_random_seed(&mut self, seed: [u8; 32])
        ensures
            final(self)@ == (LedgerState { random_seed: seed@, ..old(self)@ }),
            old(self).wf() ==> final(self).wf(),
    {
        self.random_seed = seed;
    }

    /// Sets the position of the next request in its block.
    pub fn set_extrinsic_index(&mut self, index: Option<u32>)
        ensures
            final(self)@ == (LedgerState { extrinsic_index: index, ..old(self)@ }),
            old(self).wf() ==> final(self).wf(),
    {
        self.extrinsic_index = index;
    }

    /// Sets what an account holds.
    pub fn set_balance(&mut self, who: u64, balance: u128)
        ensures
            final(self)@ == (LedgerState {
                balances: old(self)@.balances.insert(who, balance),
                ..old(self)@
            }),
            old(self).wf() ==> final(self).wf(),
    {
        self.balances.insert(who, balance);
    }

    /// Sets the nonce, as when a ledger is put back as it was stored.
    pub fn set_auto_breed_nonce(&mut self, nonce: u32)
        ensures
            final(self)@ == (LedgerState { auto_breed_nonce: nonce, ..old(self)@ }),
            old(self).wf() ==> final(self).wf(),
    {
        self.auto_breed_nonce = nonce;
    }

    /// Derives a fresh genome for a request of `sender`.
    pub fn random_value(&self, sender: u64) -> (dna: [u8; 16])
        ensures
            dna@ == self@.random_value(sender),
    {
        random_genome(&self.random_seed, sender, self.extrinsic_index)
    }

    /// Checks a breeding proof at the difficulty of this ledger.
    pub fn validate_solution(&self, kitty_id_1: u32, kitty_id_2: u32, nonce: u32, solution: u128) -> (ok:
        bool)
        requires
            self.wf(),
        ensures
            ok == self@.validate_solution(kitty_id_1, kitty_id_2, nonce, solution),
    {
        check_proof(self.config.default_difficulty, kitty_id_1, kitty_id_2, nonce, solution)
    }

    /// Adds a kitty under the next id.
    fn mint(&mut self, owner: u64, kitty: Kitty) -> (result: Result<u32, Error>)
        requires
            old(self).wf(),
        ensures
            final(self).wf(),
            (final(self)@, result) == old(self)@.mint(owner, kitty),
    {
        let next = self.tokens.len();
        if next >= self.config.kitty_id_limit as usize {
            return Err(Error::KittyIdOverflow);
        }
        self.tokens.push(TokenInfo { owner, data: kitty });
        proof {
            assert(self@ =~= old(self)@.with_kitty(owner, kitty));
        }
        Ok(next as u32)
    }

    /// Moves `value` from `from` to `to`, unless that would leave `from` with less than
    /// the existential deposit, or cannot be done at all.
    pub fn transfer_balance(&mut self, from: u64, to: u64, value: u128) -> (result: Result<(), Error>)
        requires
            old(self).wf(),
        ensures
            final(self).wf(),
            result == match old(self)@.payment_error(from, to, value) {
                Some(e) => Err::<(), Error>(e),
                None => Ok(()),
            },
            final(self)@ == if result is Ok {
                old(self)@.with_payment(from, to, value)
            } else {
                old(self)@
            },
    {
        if value == 0 || from == to {
            return Ok(());
        }
        let from_balance = self.free_balance(from);
        let to_balance = self.free_balance(to);
        if from_balance < value {
            return Err(Error::InsufficientBalance);
        }
        if to_balance > u128::MAX - value {
            return Err(Error::BalanceOverflow);
        }
        if from_balance - value < self.config.existential_deposit {
            return Err(Error::KeepAlive);
        }
        self.balances.insert(from, from_balance - value);
        self.balances.insert(to, to_balance + value);
        proof {
            assert(self@ =~= old(self)@.with_payment(from, to, value));
        }
        Ok(())
    }

    /// Creates a kitty with a fresh genome for the sender.
    pub fn create(&mut self, origin: Origin) -> (result: Result<Event, Error>)
        requires
            old(self).wf(),
        ensures
            final(self).wf(),
            (final(self)@, result) == old(self)@.create(origin),
            result matches Ok(Event::KittyCreated(owner, kitty_id, kitty)) ==> kitty.dna() == old(
                self,
            )@.random_value(owner),
    {
        let sender = match origin {
            Origin::Signed(who) => who,
            Origin::Unsigned => {
                return Err(Error::BadOrigin);
            },
        };
        let dna = self.random_value(sender);
        let kitty = Kitty::from_dna(dna);
        match self.mint(sender, kitty) {
            Ok(kitty_id) => Ok(Event::KittyCreated(sender, kitty_id, kitty)),
            Err(e) => Err(e),
        }
    }

    /// Breeds two kitties of different sex: the child takes each bit from the first
    /// where a freshly derived selector has a 0, and from the second where it has a 1.
    pub fn do_breed(
        &mut self,
        owner: u64,
        kitty1: Kitty,
        kitty2: Kitty,
        kitty_id_1: u32,
        kitty_id_2: u32,
    ) -> (result: Result<Event, Error>)
        requires
            old(self).wf(),
        ensures
            final(self).wf(),
            (final(self)@, result) == old(self)@.do_breed(
                owner,
                kitty1,
                kitty2,
                kitty_id_1,
                kitty_id_2,
            ),
            result matches Ok(Event::KittyBred(_, _, child, _, _)) ==> child.dna() == spec_combine(
                kitty1.dna(),
                kitty2.dna(),
                old(self)@.random_value(owner),
            ),
    {
        if kitty1.gender() == kitty2.gender() {
            return Err(Error::SameGender);
        }
        let selector = self.random_value(owner);
        let child = Kitty::from_dna(combine(&kitty1.0, &kitty2.0, &selector));
        match self.mint(owner, child) {
            Ok(kitty_id) => Ok(Event::KittyBred(owner, kitty_id, child, kitty_id_1, kitty_id_2)),
            Err(e) => Err(e),
        }
    }

    /// Breeds two kitties of the sender.
    pub fn breed(&mut self, origin: Origin, kitty_id_1: u32, kitty_id_2: u32) -> (result: Result<
        Event,
        Error,
    >)
        requires
            old(self).wf(),
        ensures
            final(self).wf(),
            (final(self)@, result) == old(self)@.breed(origin, kitty_id_1, kitty_id_2),
    {
        let sender = match origin {
            Origin::Signed(who) => who,
            Origin::Unsigned => {
                return Err(Error::BadOrigin);
            },
        };
        let kitty1 = match self.kitties(sender, kitty_id_1) {
            Some(kitty) => kitty,
            None => {
                return Err(Error::InvalidKittyId);
            },
        };
        let kitty2 = match self.kitties(sender, kitty_id_2) {
            Some(kitty) => kitty,
            None => {
                return Err(Error::InvalidKittyId);
            },
        };
        self.do_breed(sender, kitty1, kitty2, kitty_id_1, kitty_id_2)
    }

    /// Hands a kitty of the sender to `to`.
    pub fn transfer(&mut self, origin: Origin, to: u64, kitty_id: u32) -> (result: Result<
        Option<Event>,
        Error,
    >)
        requires
            old(self).wf(),
        ensures
            final(self).wf(),
            (final(self)@, result) == old(self)@.transfer(origin, to, kitty_id),
    {
        let sender = match origin {
            Origin::Signed(who) => who,
            Origin::Unsigned => {
                return Err(Error::BadOrigin);
            },
        };
        let kitty = match self.kitties(sender, kitty_id) {
            Some(kitty) => kitty,
            None => {
                return Err(Error::InvalidKittyId);
            },
        };
        if sender == to {
            return Ok(None);
        }
        self.tokens[kitty_id as usize] = TokenInfo { owner: to, data: kitty };
        self.prices.remove(&kitty_id);
        proof {
            assert(self@ =~= old(self)@.with_owner(kitty_id, to).with_price(kitty_id, None));
        }
        Ok(Some(Event::KittyTransferred(sender, to, kitty_id, kitty)))
    }

    /// Lists a kitty of the sender for `new_price`, or takes it off the market.
    pub fn set_price(&mut self, origin: Origin, kitty_id: u32, new_price: Option<u128>) -> (result:
        Result<Event, Error>)
        requires
            old(self).wf(),
        ensures
            final(self).wf(),
            (final(self)@, result) == old(self)@.set_price(origin, kitty_id, new_price),
    {
        let sender = match origin {
            Origin::Signed(who) => who,
            Origin::Unsigned => {
                return Err(Error::BadOrigin);
            },
        };
        let kitty = match self.kitties(sender, kitty_id) {
            Some(kitty) => kitty,
            None => {
                return Err(Error::NotOwner);
            },
        };
        match new_price {
            Some(price) => {
                self.prices.insert(kitty_id, price);
            },
            None => {
                self.prices.remove(&kitty_id);
            },
        }
        proof {
            assert(self@ =~= old(self)@.with_price(kitty_id, new_price));
        }
        Ok(Event::KittyPriceUpdated(sender, kitty_id, kitty, new_price))
    }

    /// Buys a listed kitty from `owner` for its price, all or nothing.
    pub fn buy(&mut self, origin: Origin, owner: u64, kitty_id: u32, max_price: u128) -> (result:
        Result<Event, Error>)
        requires
            old(self).wf(),
        ensures
            final(self).wf(),
            (final(self)@, result) == old(self)@.buy(origin, owner, kitty_id, max_price),
    {
        let sender = match origin {
            Origin::Signed(who) => who,
            Origin::Unsigned => {
                return Err(Error::BadOrigin);
            },
        };
        if sender == owner {
            return Err(Error::BuyFromSelf);
        }
        let price = match self.prices(kitty_id) {
            Some(price) => price,
            None => {
                return Err(Error::NotForSale);
            },
        };
        if max_price < price {
            return Err(Error::PriceTooLow);
        }
        let kitty = match self.kitties(owner, kitty_id) {
            Some(kitty) => kitty,
            None => {
                return Err(Error::InvalidKittyId);
            },
        };
        match self.transfer_balance(sender, owner, price) {
            Err(e) => {
                return Err(e);
            },
            Ok(()) => {},
        }
        self.prices.remove(&kitty_id);
        self.tokens[kitty_id as usize] = TokenInfo { owner: sender, data: kitty };
        proof {
            assert(self@ =~= old(self)@.with_price(kitty_id, None).with_owner(
                kitty_id,
                sender,
            ).with_payment(sender, owner, price));
        }
        Ok(Event::KittySold(owner, sender, kitty_id, kitty, price))
    }

    /// Breeds the two kitties that an unsigned request with a valid proof names.
    pub fn auto_breed(
        &mut self,
        origin: Origin,
        kitty_id_1: u32,
        kitty_id_2: u32,
        nonce: u32,
        solution: u128,
    ) -> (result: Result<Event, Error>)
        requires
            old(self).wf(),
        ensures
            final(self).wf(),
            (final(self)@, result) == old(self)@.auto_breed(
                origin,
                kitty_id_1,
                kitty_id_2,
                nonce,
                solution,
            ),
    {
        match origin {
            Origin::Signed(_) => {
                return Err(Error::BadOrigin);
            },
            Origin::Unsigned => {},
        }
        if !self.validate_solution(kitty_id_1, kitty_id_2, nonce, solution) {
            return Err(Error::InvalidProof);
        }
        let token1 = match self.tokens(kitty_id_1) {
            Some(token) => token,
            None => {
                return Err(Error::InvalidKittyId);
            },
        };
        let token2 = match self.tokens(kitty_id_2) {
            Some(token) => token,
            None => {
                return Err(Error::InvalidKittyId);
            },
        };
        self.do_breed(token1.owner, token1.data, token2.data, kitty_id_1, kitty_id_2)
    }

    /// Decides whether an unsigned request is admitted, and moves the nonce on if it is.
    pub fn validate_unsigned(&mut self, call: &Call) -> (result: Result<
        ValidTransaction,
        InvalidTransaction,
    >)
        requires
            old(self).wf(),
        ensures
            final(self).wf(),
            (final(self)@, result) == old(self)@.validate_unsigned(*call),
    {
        match *call {
            Call::AutoBreed(kitty_id_1, kitty_id_2, nonce, solution) => {
                if self.validate_solution(kitty_id_1, kitty_id_2, nonce, solution) {
                    if nonce != self.auto_breed_nonce {
                        return Err(InvalidTransaction::Stale);
                    }
                    let next = match self.auto_breed_nonce.checked_add(1) {
                        Some(next) => next,
                        None => {
                            return Err(InvalidTransaction::ExhaustsResources);
                        },
                    };
                    self.auto_breed_nonce = next;
                    proof {
                        assert(self@ =~= (LedgerState {
                            auto_breed_nonce: (old(self)@.auto_breed_nonce + 1) as u32,
                            ..old(self)@
                        }));
                    }
                    Ok(
                        ValidTransaction {
                            priority: 0,
                            longevity: AUTO_BREED_LONGEVITY,
                            propagate: true,
                        },
                    )
                } else {
                    Err(InvalidTransaction::BadProof)
                }
            },
            _ => Err(InvalidTransaction::Call),
        }
    }

    /// Performs the request `call` of `origin`.
    pub fn dispatch(&mut self, origin: Origin, call: Call) -> (result: Result<Option<Event>, Error>)
        requires
            old(self).wf(),
        ensures
            final(self).wf(),
            (final(self)@, result) == old(self)@.dispatch(origin, call),
    {
        match call {
            Call::Create => wrap_event(self.create(origin)),
            Call::Breed(kitty_id_1, kitty_id_2) => wrap_event(
                self.breed(origin, kitty_id_1, kitty_id_2),
            ),
            Call::Transfer(to, kitty_id) => self.transfer(origin, to, kitty_id),
            Call::SetPrice(kitty_id, new_price) => wrap_event(
                self.set_price(origin, kitty_id, new_price),
            ),
            Call::Buy(owner, kitty_id, max_price) => wrap_event(
                self.buy(origin, owner, kitty_id, max_price),
            ),
            Call::AutoBreed(kitty_id_1, kitty_id_2, nonce, solution) => wrap_event(
                self.auto_breed(origin, kitty_id_1, kitty_id_2, nonce, solution),
            ),
        }
    }
}

/// The same outcome, with the event as an optional one.
fn wrap_event(result: Result<Event, Error>) -> (wrapped: Result<Option<Event>, Error>)
    ensures
        wrapped == some_event(result),
{
    match result {
        Ok(event) => Ok(Some(event)),
        Err(e) => Err(e),
    }
}

} // verus!