use crate::types::{AccountId, Context};
use frame_support::pallet_prelude::Encode;
use frame_support::StorageHasher;
use vstd::bytes::{spec_u32_to_le_bytes, spec_u64_to_le_bytes};
use vstd::prelude::*;

verus! {

/// The bytes that stand for an optional transaction index: a zero where there
/// is none, else a one and the index, lowest byte first.
pub open spec fn index_encoding(index: Option<u32>) -> Seq<u8> {
    match index {
        None => seq![0u8],
        Some(i) => seq![1u8] + spec_u32_to_le_bytes(i),
    }
}

/// The bytes from which a caller's random value is derived: the seed, the
/// block since which it is known, the caller and the transaction's index,
/// one after the other, each number lowest byte first.
pub open spec fn payload_encoding(context: Context, sender: AccountId) -> Seq<u8> {
    context.random_seed@ + spec_u64_to_le_bytes(context.seed_known_since) + spec_u64_to_le_bytes(
        sender,
    ) + index_encoding(context.extrinsic_index)
}

/// The 128-bit Blake2 digest of `data`.
pub uninterp spec fn blake2_128_of(data: Seq<u8>) -> Seq<u8>;

/// The random value of a caller in a transaction: the digest of the payload.
pub open spec fn random_value_of(context: Context, sender: AccountId) -> Seq<u8> {
    blake2_128_of(payload_encoding(context, sender))
}

/// One byte of a child: of each bit, the first parent's where the bit of
/// `selected` is set, the second parent's where it is not.
pub open spec fn mix_byte(first: u8, second: u8, selected: u8) -> u8 {
    (first & selected) | (second & !selected)
}

/// The genes of a child, byte by byte.
pub open spec fn mix(first: Seq<u8>, second: Seq<u8>, selected: Seq<u8>) -> Seq<u8> {
    Seq::new(16, |i: int| mix_byte(first[i], second[i], selected[i]))
}

/// Calls `Encode::encode` of `parity-scale-codec`, as `frame_support`
/// re-exports it, on the tuple of seed, block, caller and index. Claimed of
/// it: the codec writes a tuple's members in order, an array of bytes as it
/// is, an integer lowest byte first, and an option as a zero or as a one
/// before its value.
#[verifier::external_body]
fn encode_payload(context: &Context, sender: AccountId) -> (payload: Vec<u8>)
    ensures
        payload@ == payload_encoding(*context, sender),
{
    ((context.random_seed, context.seed_known_since), &sender, context.extrinsic_index).encode()
}

/// Calls `frame_support::Blake2_128::hash`, which is `sp_io`'s `blake2_128`.
/// Claimed of it: the digest depends on the bytes alone.
#[verifier::external_body]
fn blake2_128(data: &Vec<u8>) -> (digest: [u8; 16])
    ensures
        digest@ == blake2_128_of(data@),
{
    frame_support::Blake2_128::hash(data)
}

/// The random value of `sender` in the transaction that `context` describes.
/// Same context and sender, same value: nothing else goes into it.
pub fn random_value(context: &Context, sender: AccountId) -> (value: [u8; 16])
    ensures
        value@ == random_value_of(*context, sender),
{
    let payload = encode_payload(context, sender);
    blake2_128(&payload)
}

/// The genes of a child of `kitty_1` and `kitty_2`: bit by bit from the first
/// where `selected` has a one, from the second where it has a zero.
pub fn combine(kitty_1: &[u8; 16], kitty_2: &[u8; 16], selected: &[u8; 16]) -> (dna: [u8; 16])
    ensures
        dna@ == mix(kitty_1@, kitty_2@, selected@),
{
    let mut dna = [0u8; 16];
    let mut i: usize = 0;
    while i < 16
        invariant
            i <= 16,
            forall|j: int|
                0 <= j < i ==> dna@[j] == mix_byte(kitty_1@[j], kitty_2@[j], selected@[j]),
        decreases 16 - i,
    {
        dna[i] = (kitty_1[i] & selected[i]) | (kitty_2[i] & !selected[i]);
        i += 1;
    }
    assert(dna@ =~= mix(kitty_1@, kitty_2@, selected@));
    dna
}

} // verus!
