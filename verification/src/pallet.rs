use crate::genes::{combine, mix, random_value, random_value_of};
use crate::runtime::{into_account_truncating, Config};
use crate::state::State;
use crate::types::{AccountId, Balance, Context, Error, Event, Failure, Kitty, KittyId};
use sp_runtime::DispatchError;
use std::collections::{HashMap, HashSet};
use vstd::prelude::*;

verus! {

broadcast use vstd::std_specs::hash::group_hash_axioms;

/// The registry of kitties, their owners, the sales announced and the
/// parents recorded, with the counter from which identifiers are issued.
pub struct Pallet {
    kitty_price: Balance,
    pallet_id: [u8; 8],
    next_kitty_id: KittyId,
    kitties: HashMap<KittyId, Kitty>,
    kitty_owner: HashMap<KittyId, AccountId>,
    kitty_on_sale: HashSet<KittyId>,
    kitty_parents: HashMap<KittyId, (KittyId, KittyId)>,
}

impl View for Pallet {
    type V = State;

    closed spec fn view(&self) -> State {
        State {
            kitty_price: self.kitty_price,
            pallet_id: self.pallet_id,
            next_kitty_id: self.next_kitty_id,
            kitties: self.kitties@,
            kitty_owner: self.kitty_owner@,
            kitty_on_sale: self.kitty_on_sale@,
            kitty_parents: self.kitty_parents@,
        }
    }
}

impl Pallet {
    /// A registry without kitties whose first kitty will be number 0.
    pub fn new(kitty_price: Balance, pallet_id: [u8; 8]) -> (pallet: Pallet)
        ensures
            pallet@ == State::genesis(kitty_price, pallet_id, 0),
            pallet@.wf(),
    {
        Pallet::starting_at(kitty_price, pallet_id, 0)
    }

    /// A registry without kitties whose first kitty will be number
    /// `next_kitty_id`.
    pub fn starting_at(kitty_price: Balance, pallet_id: [u8; 8], next_kitty_id: KittyId) -> (pallet:
        Pallet)
        ensures
            pallet@ == State::genesis(kitty_price, pallet_id, next_kitty_id),
            pallet@.wf(),
    {
        let pallet = Pallet {
            kitty_price,
            pallet_id,
            next_kitty_id,
            kitties: HashMap::new(),
            kitty_owner: HashMap::new(),
            kitty_on_sale: HashSet::new(),
            kitty_parents: HashMap::new(),
        };
        assert(pallet@.kitties =~= Map::empty());
        assert(pallet@.kitty_owner =~= Map::empty());
        assert(pallet@.kitty_on_sale =~= Set::empty());
        assert(pallet@.kitty_parents =~= Map::empty());
        pallet
    }

    /// Creates a kitty for `who` from the random value of the transaction.
    ///
    /// The runtime is asked to move the price from `who` to the pallet's
    /// account, which must not end `who`'s account. The kitty exists if and
    /// only if that payment went through; nothing is asked of the runtime
    /// when no identifier is left.
    pub fn create<T: Config>(
        &mut self,
        runtime: &mut T,
        who: AccountId,
        context: &Context,
    ) -> (result: Result<Event, Failure>)
        ensures
            old(self)@.wf() ==> final(self)@.wf(),
            match old(self)@.create_refusal() {
                Some(error) => {
                    &&& result == Err::<Event, Failure>(Failure::Pallet(error))
                    &&& final(self)@ == old(self)@
                    &&& *final(runtime) == *old(runtime)
                },
                None => match result {
                    Ok(event) => {
                        &&& event matches Event::KittyCreated { who: creator, kitty_id, kitty }
                        &&& creator == who
                        &&& kitty_id == old(self)@.next_kitty_id
                        &&& final(self)@.next_kitty_id == kitty_id + 1
                        &&& (old(self)@.wf() ==> forall|id: KittyId| #[trigger]
                            old(self)@.kitties.contains_key(id) ==> id < kitty_id)
                        &&& kitty.dna@ == random_value_of(*context, who)
                        &&& kitty.name is None
                        &&& final(self)@ == old(self)@.minted(who, kitty, None)
                        &&& T::transferred(
                            *old(runtime),
                            who,
                            old(self)@.account_id(),
                            old(self)@.kitty_price,
                            true,
                            None,
                            *final(runtime),
                        )
                    },
                    Err(Failure::Payment(refusal)) => {
                        &&& final(self)@ == old(self)@
                        &&& T::transferred(
                            *old(runtime),
                            who,
                            old(self)@.account_id(),
                            old(self)@.kitty_price,
                            true,
                            Some(refusal),
                            *final(runtime),
                        )
                    },
                    Err(Failure::Pallet(_)) => false,
                },
            },
    {
        if self.next_kitty_id == u32::MAX {
            return Err(Failure::Pallet(Error::StorageOverflow));
        }
        let kitty = Kitty { dna: random_value(context, who), name: None };
        proof {
            if self@.wf() {
                self@.lemma_minted_keeps_wf(who, kitty, None);
            }
        }
        let price = self.kitty_price;
        let paid = runtime.transfer(who, self.account_id(), price, true);
        match self.mint(who, kitty, None, paid) {
            Ok(kitty_id) => Ok(Event::KittyCreated { who, kitty_id, kitty }),
            Err(failure) => Err(failure),
        }
    }

    /// Breeds a kitty for `who` from two different kitties: of each bit, the
    /// first parent's where the random value of the transaction has a one,
    /// the second parent's where it has a zero.
    ///
    /// The rules are tried in this order: the parents differ, both exist, an
    /// identifier is left. Then the runtime is asked for the price as in
    /// `create`, and the child exists if and only if the payment went through.
    pub fn breed<T: Config>(
        &mut self,
        runtime: &mut T,
        who: AccountId,
        kitty_id_1: KittyId,
        kitty_id_2: KittyId,
        context: &Context,
    ) -> (result: Result<Event, Failure>)
        ensures
            old(self)@.wf() ==> final(self)@.wf(),
            match old(self)@.breed_refusal(kitty_id_1, kitty_id_2) {
                Some(error) => {
                    &&& result == Err::<Event, Failure>(Failure::Pallet(error))
                    &&& final(self)@ == old(self)@
                    &&& *final(runtime) == *old(runtime)
                },
                None => match result {
                    Ok(event) => {
                        &&& event matches Event::KittyBred { who: breeder, kitty_id, kitty }
                        &&& breeder == who
                        &&& kitty_id == old(self)@.next_kitty_id
                        &&& final(self)@.next_kitty_id == kitty_id + 1
                        &&& (old(self)@.wf() ==> forall|id: KittyId| #[trigger]
                            old(self)@.kitties.contains_key(id) ==> id < kitty_id)
                        &&& kitty.dna@ == mix(
                            old(self)@.kitties[kitty_id_1].dna@,
                            old(self)@.kitties[kitty_id_2].dna@,
                            random_value_of(*context, who),
                        )
                        &&& kitty.name is None
                        &&& final(self)@ == old(self)@.minted(
                            who,
                            kitty,
                            Some((kitty_id_1, kitty_id_2)),
                        )
                        &&& T::transferred(
                            *old(runtime),
                            who,
                            old(self)@.account_id(),
                            old(self)@.kitty_price,
                            true,
                            None,
                            *final(runtime),
                        )
                    },
                    Err(Failure::Payment(refusal)) => {
                        &&& final(self)@ == old(self)@
                        &&& T::transferred(
                            *old(runtime),
                            who,
                            old(self)@.account_id(),
                            old(self)@.kitty_price,
                            true,
                            Some(refusal),
                            *final(runtime),
                        )
                    },
                    Err(Failure::Pallet(_)) => false,
                },
            },
    {
        if kitty_id_1 == kitty_id_2 {
            return Err(Failure::Pallet(Error::SameKittyId));
        }
        if !self.kitties.contains_key(&kitty_id_1) {
            return Err(Failure::Pallet(Error::InvalidKittyId));
        }
        if !self.kitties.contains_key(&kitty_id_2) {
            return Err(Failure::Pallet(Error::InvalidKittyId));
        }
        if self.next_kitty_id == u32::MAX {
            return Err(Failure::Pallet(Error::StorageOverflow));
        }
        let kitty_1 = match self.kitties.get(&kitty_id_1) {
            Some(kitty) => *kitty,
            None => { return Err(Failure::Pallet(Error::InvalidKittyId)); },
        };
        let kitty_2 = match self.kitties.get(&kitty_id_2) {
            Some(kitty) => *kitty,
            None => { return Err(Failure::Pallet(Error::InvalidKittyId)); },
        };

        let selected = random_value(context, who);
        let kitty = Kitty { dna: combine(&kitty_1.dna, &kitty_2.dna, &selected), name: None };

        let price = self.kitty_price;
        let paid = runtime.transfer(who, self.account_id(), price, true);
        proof {
            if self@.wf() {
                self@.lemma_minted_keeps_wf(who, kitty, Some((kitty_id_1, kitty_id_2)));
            }
        }
        match self.mint(who, kitty, Some((kitty_id_1, kitty_id_2)), paid) {
            Ok(kitty_id) => Ok(Event::KittyBred { who, kitty_id, kitty }),
            Err(failure) => Err(failure),
        }
    }

    /// Hands kitty `kitty_id` from `who`, its owner, to `recipient`. A sale
    /// that was announced for the kitty stays announced.
    pub fn transfer(&mut self, who: AccountId, recipient: AccountId, kitty_id: KittyId) -> (result:
        Result<Event, Error>)
        ensures
            old(self)@.wf() ==> final(self)@.wf(),
            match old(self)@.transfer_refusal(who, kitty_id) {
                Some(error) => result == Err::<Event, Error>(error) && final(self)@ == old(self)@,
                None => {
                    &&& result == Ok::<Event, Error>(
                        Event::KittyTransferred { from: who, recipient, kitty_id },
                    )
                    &&& final(self)@ == old(self)@.transferred(kitty_id, recipient)
                },
            },
    {
        if !self.kitties.contains_key(&kitty_id) {
            return Err(Error::InvalidKittyId);
        }
        let owner = match self.kitty_owner.get(&kitty_id) {
            Some(owner) => *owner,
            None => { return Err(Error::InvalidKittyId); },
        };
        if owner != who {
            return Err(Error::NotOwner);
        }
        proof {
            if self@.wf() {
                self@.lemma_transferred_keeps_wf(who, kitty_id, recipient);
            }
        }
        self.kitty_owner.insert(kitty_id, recipient);
        Ok(Event::KittyTransferred { from: who, recipient, kitty_id })
    }

    /// Puts kitty `kitty_id` on sale for `who`, its owner, at the pallet's
    /// price.
    pub fn sale(&mut self, who: AccountId, kitty_id: KittyId) -> (result: Result<Event, Error>)
        ensures
            old(self)@.wf() ==> final(self)@.wf(),
            match old(self)@.sale_refusal(who, kitty_id) {
                Some(error) => result == Err::<Event, Error>(error) && final(self)@ == old(self)@,
                None => {
                    &&& result == Ok::<Event, Error>(Event::KittyOnSale { who, kitty_id })
                    &&& final(self)@ == old(self)@.listed(kitty_id)
                },
            },
    {
        if !self.kitties.contains_key(&kitty_id) {
            return Err(Error::InvalidKittyId);
        }
        match self.kitty_owner.get(&kitty_id) {
            Some(owner) => {
                if *owner != who {
                    return Err(Error::NotOwner);
                }
            },
            None => { return Err(Error::NotOwner); },
        }
        if self.kitty_on_sale.contains(&kitty_id) {
            return Err(Error::AlreadyOnSale);
        }
        proof {
            if self@.wf() {
                self@.lemma_listed_keeps_wf(who, kitty_id);
            }
        }
        self.kitty_on_sale.insert(kitty_id);
        Ok(Event::KittyOnSale { who, kitty_id })
    }

    /// Buys kitty `kitty_id`, which is on sale, for `who`.
    ///
    /// The runtime is asked to move the price from `who` to the kitty's
    /// owner, which must not end `who`'s account. The kitty changes hands
    /// and leaves the sale if and only if that payment went through; nothing
    /// is asked of the runtime when a rule of the pallet refuses the call.
    pub fn buy<T: Config>(&mut self, runtime: &mut T, who: AccountId, kitty_id: KittyId) -> (result:
        Result<Event, Failure>)
        ensures
            old(self)@.wf() ==> final(self)@.wf(),
            match old(self)@.buy_refusal(who, kitty_id) {
                Some(error) => {
                    &&& result == Err::<Event, Failure>(Failure::Pallet(error))
                    &&& final(self)@ == old(self)@
                    &&& *final(runtime) == *old(runtime)
                },
                None => match result {
                    Ok(event) => {
                        &&& event == Event::KittyBought { who, kitty_id }
                        &&& final(self)@ == old(self)@.bought(who, kitty_id)
                        &&& T::transferred(
                            *old(runtime),
                            who,
                            old(self)@.kitty_owner[kitty_id],
                            old(self)@.kitty_price,
                            true,
                            None,
                            *final(runtime),
                        )
                    },
                    Err(Failure::Payment(refusal)) => {
                        &&& final(self)@ == old(self)@
                        &&& T::transferred(
                            *old(runtime),
                            who,
                            old(self)@.kitty_owner[kitty_id],
                            old(self)@.kitty_price,
                            true,
                            Some(refusal),
                            *final(runtime),
                        )
                    },
                    Err(Failure::Pallet(_)) => false,
                },
            },
    {
        if !self.kitties.contains_key(&kitty_id) {
            return Err(Failure::Pallet(Error::InvalidKittyId));
        }
        let owner = match self.kitty_owner.get(&kitty_id) {
            Some(owner) => *owner,
            None => { return Err(Failure::Pallet(Error::InvalidKittyId)); },
        };
        if owner == who {
            return Err(Failure::Pallet(Error::AlreadyOnSale));
        }
        if !self.kitty_on_sale.contains(&kitty_id) {
            return Err(Failure::Pallet(Error::NotOnSale));
        }
        proof {
            if self@.wf() {
                self@.lemma_bought_keeps_wf(who, kitty_id);
            }
        }
        let price = self.kitty_price;
        let paid = runtime.transfer(who, owner, price, true);
        self.settle(who, kitty_id, paid)
    }

    /// Issues the next identifier, unless the last one has been reached.
    fn get_next_id(&mut self) -> (result: Result<KittyId, Error>)
        ensures
            match result {
                Ok(id) => {
                    &&& id == old(self)@.next_kitty_id
                    &&& id < u32::MAX
                    &&& final(self)@ == (State { next_kitty_id: (id + 1) as KittyId, ..old(self)@ })
                },
                Err(error) => {
                    &&& error == Error::StorageOverflow
                    &&& old(self)@.next_kitty_id == u32::MAX
                    &&& final(self)@ == old(self)@
                },
            },
    {
        let current_id = self.next_kitty_id;
        match current_id.checked_add(1) {
            Some(next) => {
                self.next_kitty_id = next;
                Ok(current_id)
            },
            None => Err(Error::StorageOverflow),
        }
    }

    /// Records `kitty` for `who` under the next identifier if the payment for
    /// it went through, and nothing if it did not.
    fn mint(
        &mut self,
        who: AccountId,
        kitty: Kitty,
        parents: Option<(KittyId, KittyId)>,
        paid: Result<(), DispatchError>,
    ) -> (result: Result<KittyId, Failure>)
        requires
            old(self)@.next_kitty_id < u32::MAX,
        ensures
            match paid {
                Ok(()) => {
                    &&& result == Ok::<KittyId, Failure>(old(self)@.next_kitty_id)
                    &&& final(self)@ == old(self)@.minted(who, kitty, parents)
                },
                Err(refusal) => {
                    &&& result == Err::<KittyId, Failure>(Failure::Payment(refusal))
                    &&& final(self)@ == old(self)@
                },
            },
    {
        if let Err(refusal) = paid {
            return Err(Failure::Payment(refusal));
        }
        let kitty_id = match self.get_next_id() {
            Ok(id) => id,
            Err(error) => { return Err(Failure::Pallet(error)); },
        };
        self.kitties.insert(kitty_id, kitty);
        self.kitty_owner.insert(kitty_id, who);
        if let Some(pair) = parents {
            self.kitty_parents.insert(kitty_id, pair);
        }
        assert(self@ == old(self)@.minted(who, kitty, parents));
        Ok(kitty_id)
    }

    /// Gives kitty `kitty_id` to `who` and takes it off the sale if the
    /// payment for it went through, and does nothing if it did not.
    fn settle(
        &mut self,
        who: AccountId,
        kitty_id: KittyId,
        paid: Result<(), DispatchError>,
    ) -> (result: Result<Event, Failure>)
        ensures
            match paid {
                Ok(()) => {
                    &&& result == Ok::<Event, Failure>(Event::KittyBought { who, kitty_id })
                    &&& final(self)@ == old(self)@.bought(who, kitty_id)
                },
                Err(refusal) => {
                    &&& result == Err::<Event, Failure>(Failure::Payment(refusal))
                    &&& final(self)@ == old(self)@
                },
            },
    {
        if let Err(refusal) = paid {
            return Err(Failure::Payment(refusal));
        }
        self.kitty_owner.insert(kitty_id, who);
        self.kitty_on_sale.remove(&kitty_id);
        Ok(Event::KittyBought { who, kitty_id })
    }

    /// The kitties as they are recorded.
    pub(crate) fn stored_kitties(&self) -> (kitties: &HashMap<KittyId, Kitty>)
        ensures
            kitties@ == self@.kitties,
    {
        &self.kitties
    }

    /// Puts `kitties` in the place of the kitties that were recorded.
    pub(crate) fn store_kitties(&mut self, kitties: HashMap<KittyId, Kitty>)
        ensures
            final(self)@ == (State { kitties: kitties@, ..old(self)@ }),
    {
        self.kitties = kitties;
    }

    /// The account that collects the fees for creating and breeding. No call
    /// of the pallet pays anything out of it.
    pub fn account_id(&self) -> (account: AccountId)
        ensures
            account == self@.account_id(),
    {
        into_account_truncating(&self.pallet_id)
    }

    /// The price of creating, breeding or buying a kitty.
    pub fn kitty_price(&self) -> (price: Balance)
        ensures
            price == self@.kitty_price,
    {
        self.kitty_price
    }

    /// The identifier that the next kitty will get.
    pub fn next_kitty_id(&self) -> (id: KittyId)
        ensures
            id == self@.next_kitty_id,
    {
        self.next_kitty_id
    }

    /// The number of kitties.
    pub fn kitty_count(&self) -> (count: usize)
        ensures
            count == self@.kitties.len(),
    {
        self.kitties.len()
    }

    /// The kitty with identifier `kitty_id`, if there is one.
    pub fn kitties(&self, kitty_id: KittyId) -> (kitty: Option<Kitty>)
        ensures
            kitty == self@.kitties.get(kitty_id),
    {
        match self.kitties.get(&kitty_id) {
            Some(kitty) => Some(*kitty),
            None => None,
        }
    }

    /// The owner of kitty `kitty_id`, if there is such a kitty.
    pub fn kitty_owner(&self, kitty_id: KittyId) -> (owner: Option<AccountId>)
        ensures
            owner == self@.kitty_owner.get(kitty_id),
    {
        match self.kitty_owner.get(&kitty_id) {
            Some(owner) => Some(*owner),
            None => None,
        }
    }

    /// Whether kitty `kitty_id` is on sale: `Some` if it is.
    pub fn kitty_on_sale(&self, kitty_id: KittyId) -> (marker: Option<()>)
        ensures
            marker is Some <==> self@.kitty_on_sale.contains(kitty_id),
    {
        if self.kitty_on_sale.contains(&kitty_id) {
            Some(())
        } else {
            None
        }
    }

    /// The parents of kitty `kitty_id`, if it was bred.
    pub fn kitty_parents(&self, kitty_id: KittyId) -> (parents: Option<(KittyId, KittyId)>)
        ensures
            parents == self@.kitty_parents.get(kitty_id),
    {
        match self.kitty_parents.get(&kitty_id) {
            Some(pair) => Some(*pair),
            None => None,
        }
    }
}

} // verus!
