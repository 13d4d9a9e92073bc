use crate::pallet::Pallet;
use crate::types::{Kitty, KittyId};
use std::collections::HashMap;
use vstd::prelude::*;
use vstd::std_specs::iter::IteratorSpec;

verus! {

broadcast use vstd::std_specs::hash::group_hash_axioms;

/// A kitty as it was recorded before names existed: the genes alone.
#[derive(Clone, Copy, PartialEq, Eq, Debug)]
pub struct KittyV0(pub [u8; 16]);

/// The name that a kitty gets when its record is brought up to date.
pub const PLACEHOLDER_NAME: [u8; 8] = [0x6e, 0x6f, 0x6e, 0x65, 0x61, 0x62, 0x63, 0x64];

/// A record of old, read from a kitty: whatever name it has is left out.
pub open spec fn legacy_record(kitty: Kitty) -> KittyV0 {
    KittyV0(kitty.dna)
}

/// The up-to-date kitty for a record of old: its genes and the placeholder
/// name.
pub open spec fn upgraded(record: KittyV0) -> Kitty {
    Kitty { dna: record.0, name: Some(PLACEHOLDER_NAME) }
}

impl KittyV0 {
    /// Reads `kitty` as a record of old.
    pub fn read(kitty: &Kitty) -> (record: KittyV0)
        ensures
            record == legacy_record(*kitty),
    {
        KittyV0(kitty.dna)
    }

    /// The up-to-date kitty for this record.
    pub fn upgrade(self) -> (kitty: Kitty)
        ensures
            kitty == upgraded(self),
    {
        Kitty { dna: self.0, name: Some(PLACEHOLDER_NAME) }
    }
}

/// Brings every record up to date, if the records are of version 0 and this
/// code is of version 1: each kitty keeps its identifier and its genes and
/// gets the placeholder name. With any other pair of versions nothing is
/// touched. No kitty is added or removed either way.
pub fn migrate(pallet: &mut Pallet, on_chain_version: u16, current_version: u16)
    ensures
        final(pallet)@ == old(pallet)@.migrated_from(on_chain_version, current_version),
        old(pallet)@.wf() ==> final(pallet)@.wf(),
{
    if on_chain_version != 0 {
        return;
    }
    if current_version != 1 {
        return;
    }
    let mut renewed: HashMap<KittyId, Kitty> = HashMap::new();
    let stored = pallet.stored_kitties();
    let ghost all = stored.iter().remaining();
    for (index, kitty) in records: stored.iter()
        invariant
            stored@ == pallet@.kitties,
            records.seq() == all,
            all == stored.iter().remaining(),
            forall|id: KittyId| #[trigger]
                renewed@.contains_key(id) ==> stored@.contains_key(id) && renewed@[id] == upgraded(
                    legacy_record(stored@[id]),
                ),
            forall|j: int|
                0 <= j < records.index() ==> renewed@.contains_key(*(#[trigger] all[j]).0),
    {
        assert(stored@.contains_key(*all[records.index()].0));
        let kitty = KittyV0::read(kitty).upgrade();
        renewed.insert(*index, kitty);
    }
    proof {
        assert forall|id: KittyId| stored@.contains_key(id) implies renewed@.contains_key(id) by {
            let j = all.index_of((&id, &stored@[id]));
            assert(renewed@.contains_key(*all[j].0));
        }
        assert(renewed@ =~= pallet@.migrated().kitties);
        if pallet@.wf() {
            pallet@.lemma_migrated_keeps_wf();
        }
    }
    pallet.store_kitties(renewed);
}

} // verus!
