//! A registry of collectible kitties and the market they are traded on.
//!
//! Kitties are created from a pseudo-random value or bred from two parents;
//! they are owned, handed over, put on sale and bought at one fixed price.
//! Every call is a function of the registry, the caller and the transaction
//! it runs in, and a call that is refused changes nothing.
//!
//! - [`pallet`] holds the registry and its calls,
//! - [`state`] the registry as a mathematical value, with the rules by which
//!   a call is refused and the changes that a call makes,
//! - [`genes`] the random value of a transaction and the mixing of genes,
//! - [`runtime`] what the pallet asks of the runtime around it,
//! - [`migrations`] the renewal of records written by an earlier version,
//! - [`lemmas`] what follows from the contracts.

pub mod genes;
pub mod lemmas;
pub mod migrations;
pub mod pallet;
pub mod runtime;
pub mod state;
pub mod types;

pub use genes::{combine, random_value};
pub use migrations::v1::KittyV0;
pub use pallet::Pallet;
pub use runtime::Config;
pub use state::State;
pub use types::{
    AccountId, Balance, BlockNumber, Context, Error, Event, Failure, Kitty, KittyId,
};
