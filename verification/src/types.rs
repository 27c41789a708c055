//! The plain data that requests, notifications and failures are made of.

use crate::genome::Kitty;
use vstd::prelude::*;

verus! {

/// Who sends a request: an account that signed it, or nobody.
#[derive(Clone, Copy, Debug, PartialEq, Eq, Structural)]
pub enum Origin {
    Signed(u64),
    Unsigned,
}

/// Why a request failed.
#[derive(Clone, Copy, Debug, PartialEq, Eq, Structural)]
pub enum Error {
    /// No such kitty, or the account named does not own it.
    InvalidKittyId,
    /// Both parents have the same sex.
    SameGender,
    /// Only the owner may list a kitty.
    NotOwner,
    /// The kitty has no price.
    NotForSale,
    /// The buyer offers less than the price.
    PriceTooLow,
    /// Buyer and seller are the same account.
    BuyFromSelf,
    /// The request came from the wrong kind of origin.
    BadOrigin,
    /// Every kitty id has been given out.
    KittyIdOverflow,
    /// The proof of work does not meet the difficulty.
    InvalidProof,
    /// The payer's balance is below the amount.
    InsufficientBalance,
    /// The payment would leave the payer with less than the existential deposit.
    KeepAlive,
    /// The payee's balance would exceed the largest amount.
    BalanceOverflow,
}

/// What a request that succeeded reports.
#[derive(Clone, Copy, Debug, PartialEq, Eq)]
pub enum Event {
    /// A kitty is created: owner, kitty id, kitty.
    KittyCreated(u64, u32, Kitty),
    /// A kitty is bred: owner, kitty id, kitty, first parent, second parent.
    KittyBred(u64, u32, Kitty, u32, u32),
    /// A kitty is transferred: from, to, kitty id, kitty.
    KittyTransferred(u64, u64, u32, Kitty),
    /// A kitty has its price updated: owner, kitty id, kitty, new price.
    KittyPriceUpdated(u64, u32, Kitty, Option<u128>),
    /// A kitty is sold: from, to, kitty id, kitty, price paid.
    KittySold(u64, u64, u32, Kitty, u128),
}

/// A request, with its arguments.
#[derive(Clone, Copy, Debug, PartialEq, Eq)]
pub enum Call {
    Create,
    /// First parent, second parent.
    Breed(u32, u32),
    /// New owner, kitty id.
    Transfer(u64, u32),
    /// Kitty id, new price.
    SetPrice(u32, Option<u128>),
    /// Current owner, kitty id, the most the buyer will pay.
    Buy(u64, u32, u128),
    /// First parent, second parent, nonce, solution.
    AutoBreed(u32, u32, u32, u128),
}

/// What is fixed when the system is assembled.
#[derive(Clone, Copy, Debug, PartialEq, Eq)]
pub struct Config {
    /// How hard a breeding proof is: its digest must lie below the largest 128-bit value
    /// divided by this.
    pub default_difficulty: u32,
    /// The least balance an account may be left with by a payment.
    pub existential_deposit: u128,
    /// The end of the id space: kitty ids run from 0 up to, and not including, this.
    pub kitty_id_limit: u32,
}

impl Config {
    /// A difficulty of zero has no target.
    pub open spec fn wf(&self) -> bool {
        self.default_difficulty > 0
    }
}

/// A kitty in the registry, with its owner.
#[derive(Clone, Copy, Debug, PartialEq, Eq)]
pub struct TokenInfo {
    pub owner: u64,
    pub data: Kitty,
}

/// How an admitted unsigned request is to be treated while it waits.
#[derive(Clone, Copy, Debug, PartialEq, Eq, Structural)]
pub struct ValidTransaction {
    pub priority: u64,
    /// For how many blocks the request stays valid.
    pub longevity: u64,
    /// Whether the request is passed on to other nodes.
    pub propagate: bool,
}

/// Why an unsigned request is not admitted.
#[derive(Clone, Copy, Debug, PartialEq, Eq, Structural)]
pub enum InvalidTransaction {
    /// The request is of a kind that is never admitted unsigned.
    Call,
    /// The proof of work does not meet the difficulty.
    BadProof,
    /// The nonce is not the current one.
    Stale,
    /// The nonce is the last there is, so that it could not move on.
    ExhaustsResources,
}

} // verus!
