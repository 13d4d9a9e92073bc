//! What follows from the contracts of the pallet's calls, stated over the
//! registry as a mathematical value.

use crate::genes::{mix, mix_byte, payload_encoding, random_value_of};
use crate::migrations::v1::PLACEHOLDER_NAME;
use crate::state::State;
use crate::types::{AccountId, Context, Error, Kitty, KittyId};
use vstd::prelude::*;

verus! {

/// The identifier of a new kitty is greater than that of every kitty
/// recorded before it, and the next identifier is then one more.
pub proof fn lemma_new_kitty_has_greatest_id(
    before: State,
    who: AccountId,
    kitty: Kitty,
    parents: Option<(KittyId, KittyId)>,
)
    requires
        before.wf(),
        before.next_kitty_id < u32::MAX,
    ensures
        forall|id: KittyId| #[trigger]
            before.kitties.contains_key(id) ==> id < before.next_kitty_id,
        before.minted(who, kitty, parents).next_kitty_id == before.next_kitty_id + 1,
        before.minted(who, kitty, parents).kitties.get(before.next_kitty_id) == Some(kitty),
        before.minted(who, kitty, parents).kitty_owner.get(before.next_kitty_id) == Some(who),
        before.minted(who, kitty, parents).kitty_parents.get(before.next_kitty_id) == parents,
        forall|id: KittyId| #[trigger]
            before.kitties.contains_key(id) ==> before.minted(who, kitty, parents).kitties.get(id)
                == before.kitties.get(id),
{
}

/// A child has sixteen bytes, each of them the first parent's byte under the
/// selecting byte, joined with the second parent's under its complement.
pub proof fn lemma_child_byte_by_byte(first: Seq<u8>, second: Seq<u8>, selected: Seq<u8>)
    ensures
        mix(first, second, selected).len() == 16,
        forall|i: int|
            0 <= i < 16 ==> #[trigger] mix(first, second, selected)[i] == (first[i]
                & selected[i]) | (second[i] & !selected[i]),
{
}

/// Each bit of a mixed byte is the first parent's where the selecting bit is
/// set and the second parent's where it is clear.
pub proof fn lemma_mix_byte_selects_bits(first: u8, second: u8, selected: u8, bit: u8)
    requires
        bit < 8,
    ensures
        (selected >> bit) & 1 == 1 ==> (mix_byte(first, second, selected) >> bit) & 1 == (first
            >> bit) & 1,
        (selected >> bit) & 1 == 0 ==> (mix_byte(first, second, selected) >> bit) & 1 == (second
            >> bit) & 1,
{
    let mixed = mix_byte(first, second, selected);
    assert(mixed == (first & selected) | (second & !selected));
    assert(bit < 8 && mixed == (first & selected) | (second & !selected) && (selected >> bit) & 1
        == 1 ==> (mixed >> bit) & 1 == (first >> bit) & 1) by (bit_vector);
    assert(bit < 8 && mixed == (first & selected) | (second & !selected) && (selected >> bit) & 1
        == 0 ==> (mixed >> bit) & 1 == (second >> bit) & 1) by (bit_vector);
}

/// The random value, and with it the child of two given parents, is
/// determined by the seed, the block since which the seed is known, the
/// index of the transaction and the caller.
pub proof fn lemma_same_transaction_same_child(
    context: Context,
    sender: AccountId,
    again: Context,
    sender_again: AccountId,
    first: Seq<u8>,
    second: Seq<u8>,
)
    requires
        context.random_seed@ == again.random_seed@,
        context.seed_known_since == again.seed_known_since,
        context.extrinsic_index == again.extrinsic_index,
        sender == sender_again,
    ensures
        payload_encoding(context, sender) == payload_encoding(again, sender_again),
        random_value_of(context, sender) == random_value_of(again, sender_again),
        mix(first, second, random_value_of(context, sender)) == mix(
            first,
            second,
            random_value_of(again, sender_again),
        ),
{
}

/// The next identifier never goes back: it moves on by one with each new
/// kitty and stays where it is otherwise.
pub proof fn lemma_next_id_never_goes_back(
    before: State,
    who: AccountId,
    kitty: Kitty,
    parents: Option<(KittyId, KittyId)>,
    kitty_id: KittyId,
    on_chain_version: u16,
    current_version: u16,
)
    requires
        before.next_kitty_id < u32::MAX,
    ensures
        before.minted(who, kitty, parents).next_kitty_id > before.next_kitty_id,
        before.transferred(kitty_id, who).next_kitty_id == before.next_kitty_id,
        before.listed(kitty_id).next_kitty_id == before.next_kitty_id,
        before.bought(who, kitty_id).next_kitty_id == before.next_kitty_id,
        before.migrated_from(on_chain_version, current_version).next_kitty_id
            == before.next_kitty_id,
{
}

/// No kitty can be bred with itself, whether it exists or not.
pub proof fn lemma_breeding_with_itself_is_refused(state: State, kitty_id: KittyId)
    ensures
        state.breed_refusal(kitty_id, kitty_id) == Some(Error::SameKittyId),
{
}

/// After a transfer the kitty belongs to the recipient, and every other
/// kitty to the owner it had.
pub proof fn lemma_transfer_moves_one_kitty(
    before: State,
    who: AccountId,
    kitty_id: KittyId,
    recipient: AccountId,
)
    requires
        before.transfer_refusal(who, kitty_id) is None,
    ensures
        before.kitty_owner.get(kitty_id) == Some(who),
        before.transferred(kitty_id, recipient).kitty_owner.get(kitty_id) == Some(recipient),
        forall|other: KittyId|
            other != kitty_id ==> #[trigger] before.transferred(
                kitty_id,
                recipient,
            ).kitty_owner.get(other) == before.kitty_owner.get(other),
        before.transferred(kitty_id, recipient).kitty_on_sale == before.kitty_on_sale,
{
}

/// Who does not own a kitty cannot transfer it.
pub proof fn lemma_transfer_by_another_is_refused(state: State, who: AccountId, kitty_id: KittyId)
    requires
        state.wf(),
        state.kitties.contains_key(kitty_id),
        state.kitty_owner.get(kitty_id) != Some(who),
    ensures
        state.transfer_refusal(who, kitty_id) == Some(Error::NotOwner),
{
}

/// A kitty that has just been put on sale cannot be put on sale again.
pub proof fn lemma_second_sale_is_refused(before: State, who: AccountId, kitty_id: KittyId)
    requires
        before.sale_refusal(who, kitty_id) is None,
    ensures
        before.listed(kitty_id).kitty_on_sale.contains(kitty_id),
        before.listed(kitty_id).sale_refusal(who, kitty_id) == Some(Error::AlreadyOnSale),
{
}

/// A kitty that exists and is not on sale cannot be bought by anyone but
/// its owner, who is refused for another reason.
pub proof fn lemma_buying_what_is_not_on_sale_is_refused(
    state: State,
    who: AccountId,
    kitty_id: KittyId,
)
    requires
        state.wf(),
        state.kitties.contains_key(kitty_id),
        !state.kitty_on_sale.contains(kitty_id),
    ensures
        state.kitty_owner[kitty_id] != who ==> state.buy_refusal(who, kitty_id) == Some(
            Error::NotOnSale,
        ),
        state.buy_refusal(who, kitty_id) is Some,
{
}

/// The owner of a kitty cannot buy it, on sale or not.
pub proof fn lemma_buying_from_oneself_is_refused(state: State, who: AccountId, kitty_id: KittyId)
    requires
        state.wf(),
        state.kitty_owner.get(kitty_id) == Some(who),
    ensures
        state.buy_refusal(who, kitty_id) == Some(Error::AlreadyOnSale),
{
}

/// A purchase is open to everyone but the owner of a kitty that is on sale.
/// After it the kitty belongs to the buyer and is no longer on sale, and
/// nothing else has changed.
pub proof fn lemma_purchase_moves_kitty_and_ends_sale(
    before: State,
    who: AccountId,
    kitty_id: KittyId,
)
    requires
        before.wf(),
        before.kitty_on_sale.contains(kitty_id),
        before.kitty_owner.get(kitty_id) != Some(who),
    ensures
        before.buy_refusal(who, kitty_id) is None,
        before.bought(who, kitty_id).kitty_owner.get(kitty_id) == Some(who),
        !before.bought(who, kitty_id).kitty_on_sale.contains(kitty_id),
        before.bought(who, kitty_id).kitties == before.kitties,
        before.bought(who, kitty_id).next_kitty_id == before.next_kitty_id,
        forall|other: KittyId|
            other != kitty_id ==> #[trigger] before.bought(who, kitty_id).kitty_owner.get(other)
                == before.kitty_owner.get(other),
        forall|other: KittyId|
            other != kitty_id ==> (#[trigger] before.bought(who, kitty_id).kitty_on_sale.contains(
                other,
            ) <==> before.kitty_on_sale.contains(other)),
{
}

/// A transfer leaves a sale standing: whoever the kitty went to, a third
/// account can still buy it, and pays the one it went to.
pub proof fn lemma_sale_outlives_transfer(
    before: State,
    who: AccountId,
    kitty_id: KittyId,
    recipient: AccountId,
    buyer: AccountId,
)
    requires
        before.wf(),
        before.kitty_on_sale.contains(kitty_id),
        before.transfer_refusal(who, kitty_id) is None,
        buyer != recipient,
    ensures
        before.transferred(kitty_id, recipient).buy_refusal(buyer, kitty_id) is None,
        before.transferred(kitty_id, recipient).kitty_owner[kitty_id] == recipient,
{
}

/// The migration from version 0 to version 1 keeps every kitty under its
/// identifier with its genes, gives each the placeholder name, adds and
/// removes none, and touches nothing else.
pub proof fn lemma_migration_renews_every_record(before: State)
    ensures
        before.migrated_from(0, 1).kitties.dom() == before.kitties.dom(),
        before.migrated_from(0, 1).kitties.len() == before.kitties.len(),
        forall|id: KittyId| #[trigger]
            before.kitties.contains_key(id) ==> {
                &&& before.migrated_from(0, 1).kitties[id].dna == before.kitties[id].dna
                &&& before.migrated_from(0, 1).kitties[id].name == Some(PLACEHOLDER_NAME)
            },
        before.migrated_from(0, 1) == (State {
            kitties: before.migrated_from(0, 1).kitties,
            ..before
        }),
{
    assert(before.migrated_from(0, 1).kitties.dom() =~= before.kitties.dom());
}

/// With any other pair of versions the migration is idle; so it is once the
/// version on record has moved on from 0. Run again on records that are up
/// to date, it changes nothing either.
pub proof fn lemma_migration_runs_once(before: State, on_chain_version: u16, current_version: u16)
    ensures
        on_chain_version != 0 || current_version != 1 ==> before.migrated_from(
            on_chain_version,
            current_version,
        ) == before,
        before.migrated_from(0, 1).migrated_from(1, 1) == before.migrated_from(0, 1),
        before.migrated().migrated() == before.migrated(),
{
    assert(before.migrated().migrated().kitties =~= before.migrated().kitties);
}

} // verus!
