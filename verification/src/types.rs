use sp_runtime::DispatchError;
use vstd::prelude::*;

verus! {

/// Identifier of a kitty: issued in increasing order, never reused.
pub type KittyId = u32;

/// An account of the runtime.
pub type AccountId = u64;

/// An amount of the runtime's currency.
pub type Balance = u128;

/// The number of a block.
pub type BlockNumber = u64;

/// A kitty as the registry keeps it. The name is absent in records that were
/// written before names existed.
#[derive(Clone, Copy, PartialEq, Eq, Debug)]
pub struct Kitty {
    /// The genes.
    pub dna: [u8; 16],
    /// The name, where the record has one.
    pub name: Option<[u8; 8]>,
}

/// What the runtime knows of the transaction that is being applied.
#[derive(Clone, Copy, PartialEq, Eq, Debug)]
pub struct Context {
    /// The random seed that the runtime offers to this block's transactions.
    pub random_seed: [u8; 32],
    /// The block since which that seed has been known.
    pub seed_known_since: BlockNumber,
    /// The position of the transaction in its block, where it has one.
    pub extrinsic_index: Option<u32>,
}

/// The reasons for which the pallet itself refuses a call.
#[derive(Clone, Copy, PartialEq, Eq, Debug)]
pub enum Error {
    /// Given by no call.
    NoneValue,
    /// No identifier is left to give to a new kitty.
    StorageOverflow,
    /// No kitty has the identifier.
    InvalidKittyId,
    /// A kitty cannot be bred with itself.
    SameKittyId,
    /// The caller does not own the kitty.
    NotOwner,
    /// The kitty is on sale already. Also given to an owner who tries to buy
    /// their own kitty.
    AlreadyOnSale,
    /// Given by no call.
    AlreadyOwned,
    /// The kitty is not on sale.
    NotOnSale,
}

/// Why a call changed nothing.
#[derive(Clone, Copy, PartialEq, Eq, Debug)]
pub enum Failure {
    /// One of the pallet's own rules refused it.
    Pallet(Error),
    /// The runtime refused the payment that the call asks for.
    Payment(DispatchError),
}

/// What a call that went through tells the world.
#[derive(Clone, Copy, PartialEq, Eq, Debug)]
pub enum Event {
    /// `who` created `kitty` and owns it under `kitty_id`.
    KittyCreated { who: AccountId, kitty_id: KittyId, kitty: Kitty },
    /// `who` bred `kitty` and owns it under `kitty_id`.
    KittyBred { who: AccountId, kitty_id: KittyId, kitty: Kitty },
    /// `from` handed kitty `kitty_id` to `recipient`.
    KittyTransferred { from: AccountId, recipient: AccountId, kitty_id: KittyId },
    /// `who` put kitty `kitty_id` on sale.
    KittyOnSale { who: AccountId, kitty_id: KittyId },
    /// `who` bought kitty `kitty_id`.
    KittyBought { who: AccountId, kitty_id: KittyId },
}

} // verus!
