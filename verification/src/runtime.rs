use crate::types::{AccountId, Balance};
use sp_runtime::traits::AccountIdConversion;
use sp_runtime::DispatchError;
use vstd::bytes::spec_u64_from_le_bytes;
use vstd::prelude::*;

verus! {

/// The error of `sp_runtime` with which a runtime refuses a dispatch. The
/// pallet looks at nothing inside it and hands it on as it came.
#[verifier::external_type_specification]
#[verifier::external_body]
pub struct ExDispatchError(sp_runtime::DispatchError);

/// The account that belongs to the pallet with identifier `pallet_id`: the
/// number whose eight bytes, lowest first, are the letters `modl` and the
/// first four bytes of the identifier.
pub open spec fn custodian_of(pallet_id: Seq<u8>) -> AccountId {
    spec_u64_from_le_bytes(seq![0x6du8, 0x6fu8, 0x64u8, 0x6cu8] + pallet_id.subrange(0, 4))
}

/// Calls `into_account_truncating` of `sp_runtime`'s `AccountIdConversion` on
/// `frame_support`'s `PalletId`. Claimed of it: it writes the pallet's type
/// tag `modl` and then the identifier, and reads an account back from the
/// first bytes of that, as many as an account has.
#[verifier::external_body]
pub(crate) fn into_account_truncating(pallet_id: &[u8; 8]) -> (account: AccountId)
    ensures
        account == custodian_of(pallet_id@),
{
    frame_support::PalletId(*pallet_id).into_account_truncating()
}

/// The refusal in the answer to a payment, if it was refused.
pub open spec fn refusal_of(outcome: Result<(), DispatchError>) -> Option<DispatchError> {
    match outcome {
        Ok(_) => None,
        Err(refusal) => Some(refusal),
    }
}

/// What the pallet asks of the runtime that it is built into: a currency in
/// which kitties are paid.
///
/// Nothing is promised of a payment but that the runtime answers for it:
/// `transferred` is the runtime's own account of what `transfer` may do, and
/// the pallet's contracts say which payment it asked for and what followed
/// from the answer.
pub trait Config: Sized {
    /// Whether `transfer`, asked on `pre` to move `value` from `source` to
    /// `dest`, may leave `post`: after the payment where `refusal` is `None`,
    /// else with that refusal. A runtime that says nothing of it allows
    /// every answer.
    open spec fn transferred(
        pre: Self,
        source: AccountId,
        dest: AccountId,
        value: Balance,
        keep_alive: bool,
        refusal: Option<DispatchError>,
        post: Self,
    ) -> bool {
        true
    }

    /// Moves `value` from `source` to `dest`. With `keep_alive` the payment
    /// must not take `source` out of existence.
    fn transfer(
        &mut self,
        source: AccountId,
        dest: AccountId,
        value: Balance,
        keep_alive: bool,
    ) -> (outcome: Result<(), DispatchError>)
        ensures
            Self::transferred(
                *old(self),
                source,
                dest,
                value,
                keep_alive,
                refusal_of(outcome),
                *final(self),
            ),
    ;
}

} // verus!
