use crate::migrations::v1::{legacy_record, upgraded};
use crate::runtime::custodian_of;
use crate::types::{AccountId, Balance, Error, Kitty, KittyId};
use vstd::prelude::*;

verus! {

/// The registry as a mathematical value: what every contract of the pallet
/// speaks of.
pub struct State {
    /// The price of creating, breeding or buying a kitty.
    pub kitty_price: Balance,
    /// The identifier from which the account that collects the fees is made.
    pub pallet_id: [u8; 8],
    /// The identifier that the next kitty will get.
    pub next_kitty_id: KittyId,
    /// The kitties, each under its identifier.
    pub kitties: Map<KittyId, Kitty>,
    /// The owner of each kitty.
    pub kitty_owner: Map<KittyId, AccountId>,
    /// The kitties that are on sale.
    pub kitty_on_sale: Set<KittyId>,
    /// The two parents of each kitty that was bred.
    pub kitty_parents: Map<KittyId, (KittyId, KittyId)>,
}

impl State {
    /// The registry before the first call.
    pub open spec fn genesis(
        kitty_price: Balance,
        pallet_id: [u8; 8],
        next_kitty_id: KittyId,
    ) -> State {
        State {
            kitty_price,
            pallet_id,
            next_kitty_id,
            kitties: Map::empty(),
            kitty_owner: Map::empty(),
            kitty_on_sale: Set::empty(),
            kitty_parents: Map::empty(),
        }
    }

    /// What holds of the registry between any two calls: a kitty has an
    /// owner and an owner has a kitty; only kitties are on sale; every
    /// identifier in use lies below the next one to be issued; and parents
    /// are two different kitties, both older than their child.
    pub open spec fn wf(self) -> bool {
        &&& forall|id: KittyId|
            self.kitties.contains_key(id) <==> #[trigger] self.kitty_owner.contains_key(id)
        &&& forall|id: KittyId| #[trigger]
            self.kitty_on_sale.contains(id) ==> self.kitties.contains_key(id)
        &&& forall|id: KittyId| #[trigger]
            self.kitties.contains_key(id) ==> id < self.next_kitty_id
        &&& forall|id: KittyId| #[trigger]
            self.kitty_parents.contains_key(id) ==> {
                let (first, second) = self.kitty_parents[id];
                &&& self.kitties.contains_key(id)
                &&& self.kitties.contains_key(first)
                &&& self.kitties.contains_key(second)
                &&& first != second
                &&& first < id
                &&& second < id
            }
    }

    /// The account that collects the fees for creating and breeding.
    pub open spec fn account_id(self) -> AccountId {
        custodian_of(self.pallet_id@)
    }

    /// The registry once `kitty` has been recorded under the next identifier
    /// and given to `who`.
    pub open spec fn minted(
        self,
        who: AccountId,
        kitty: Kitty,
        parents: Option<(KittyId, KittyId)>,
    ) -> State {
        let id = self.next_kitty_id;
        State {
            next_kitty_id: (id + 1) as KittyId,
            kitties: self.kitties.insert(id, kitty),
            kitty_owner: self.kitty_owner.insert(id, who),
            kitty_parents: match parents {
                Some(pair) => self.kitty_parents.insert(id, pair),
                None => self.kitty_parents,
            },
            ..self
        }
    }

    /// The registry once kitty `id` belongs to `recipient`. A sale that was
    /// announced for it stays announced.
    pub open spec fn transferred(self, id: KittyId, recipient: AccountId) -> State {
        State { kitty_owner: self.kitty_owner.insert(id, recipient), ..self }
    }

    /// The registry once kitty `id` is on sale.
    pub open spec fn listed(self, id: KittyId) -> State {
        State { kitty_on_sale: self.kitty_on_sale.insert(id), ..self }
    }

    /// The registry once `who` has bought kitty `id`.
    pub open spec fn bought(self, who: AccountId, id: KittyId) -> State {
        State {
            kitty_owner: self.kitty_owner.insert(id, who),
            kitty_on_sale: self.kitty_on_sale.remove(id),
            ..self
        }
    }

    /// The registry once every record has been brought up to date: the same
    /// kitties under the same identifiers, each with the placeholder name.
    pub open spec fn migrated(self) -> State {
        State {
            kitties: self.kitties.map_values(|kitty: Kitty| upgraded(legacy_record(kitty))),
            ..self
        }
    }

    /// Why `create` is refused, if it is.
    pub open spec fn create_refusal(self) -> Option<Error> {
        if self.next_kitty_id == u32::MAX {
            Some(Error::StorageOverflow)
        } else {
            None
        }
    }

    /// Why `breed` is refused, if it is.
    pub open spec fn breed_refusal(self, kitty_id_1: KittyId, kitty_id_2: KittyId) -> Option<
        Error,
    > {
        if kitty_id_1 == kitty_id_2 {
            Some(Error::SameKittyId)
        } else if !self.kitties.contains_key(kitty_id_1) || !self.kitties.contains_key(
            kitty_id_2,
        ) {
            Some(Error::InvalidKittyId)
        } else if self.next_kitty_id == u32::MAX {
            Some(Error::StorageOverflow)
        } else {
            None
        }
    }

    /// Why `transfer` is refused, if it is.
    pub open spec fn transfer_refusal(self, who: AccountId, kitty_id: KittyId) -> Option<Error> {
        if !self.kitties.contains_key(kitty_id) || !self.kitty_owner.contains_key(kitty_id) {
            Some(Error::InvalidKittyId)
        } else if self.kitty_owner[kitty_id] != who {
            Some(Error::NotOwner)
        } else {
            None
        }
    }

    /// Why `sale` is refused, if it is.
    pub open spec fn sale_refusal(self, who: AccountId, kitty_id: KittyId) -> Option<Error> {
        if !self.kitties.contains_key(kitty_id) {
            Some(Error::InvalidKittyId)
        } else if self.kitty_owner.get(kitty_id) != Some(who) {
            Some(Error::NotOwner)
        } else if self.kitty_on_sale.contains(kitty_id) {
            Some(Error::AlreadyOnSale)
        } else {
            None
        }
    }

    /// Why `buy` is refused before any money moves, if it is. An owner who
    /// buys their own kitty is told that it is on sale already.
    pub open spec fn buy_refusal(self, who: AccountId, kitty_id: KittyId) -> Option<Error> {
        if !self.kitties.contains_key(kitty_id) || !self.kitty_owner.contains_key(kitty_id) {
            Some(Error::InvalidKittyId)
        } else if self.kitty_owner[kitty_id] == who {
            Some(Error::AlreadyOnSale)
        } else if !self.kitty_on_sale.contains(kitty_id) {
            Some(Error::NotOnSale)
        } else {
            None
        }
    }

    /// The registry after a migration that finds `on_chain_version` recorded
    /// and is written for `current_version`. Only the step from 0 to 1
    /// touches anything.
    pub open spec fn migrated_from(self, on_chain_version: u16, current_version: u16) -> State {
        if on_chain_version == 0 && current_version == 1 {
            self.migrated()
        } else {
            self
        }
    }

    /// Recording a new kitty keeps the registry well formed, whether it was
    /// created, or bred from two kitties that the rules accept as parents.
    pub proof fn lemma_minted_keeps_wf(
        self,
        who: AccountId,
        kitty: Kitty,
        parents: Option<(KittyId, KittyId)>,
    )
        requires
            self.wf(),
            self.next_kitty_id < u32::MAX,
            parents matches Some(pair) ==> self.breed_refusal(pair.0, pair.1) is None,
        ensures
            self.minted(who, kitty, parents).wf(),
    {
    }

    /// Handing a kitty over keeps the registry well formed.
    pub proof fn lemma_transferred_keeps_wf(self, who: AccountId, id: KittyId, recipient: AccountId)
        requires
            self.wf(),
            self.transfer_refusal(who, id) is None,
        ensures
            self.transferred(id, recipient).wf(),
    {
    }

    /// Announcing a sale keeps the registry well formed.
    pub proof fn lemma_listed_keeps_wf(self, who: AccountId, id: KittyId)
        requires
            self.wf(),
            self.sale_refusal(who, id) is None,
        ensures
            self.listed(id).wf(),
    {
    }

    /// Bringing the records up to date keeps the registry well formed.
    pub proof fn lemma_migrated_keeps_wf(self)
        requires
            self.wf(),
        ensures
            self.migrated().wf(),
    {
    }

    /// A purchase keeps the registry well formed.
    pub proof fn lemma_bought_keeps_wf(self, who: AccountId, id: KittyId)
        requires
            self.wf(),
            self.buy_refusal(who, id) is None,
        ensures
            self.bought(who, id).wf(),
    {
    }
}

} // verus!
