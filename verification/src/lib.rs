//! Ownable, breedable kitties: genomes and their derived traits, a registry of
//! owners, an escrowed marketplace, and proof-of-work-gated autonomous breeding.

pub mod encoding;
pub mod genome;
pub mod hashing;
pub mod laws;
pub mod offchain;
pub mod pallet;
pub mod types;

pub use crate::genome::{Kitty, KittyGender};
pub use crate::pallet::{GenesisConfig, LedgerState, Pallet};
pub use crate::types::{
    Call, Config, Error, Event, InvalidTransaction, Origin, TokenInfo, ValidTransaction,
};
