//! Cancellation: the checks a withdrawal must pass.

use crate::accounts::CancelIntent;
use crate::address::Address;
use crate::error::{CustomError, LedgerError, ProtocolError};
use crate::intent::IntentCancelledEvent;
use crate::pda::{intent_address_with, intent_address_with_bump};
use vstd::prelude::*;

verus! {

/// Whether a cancellation is permitted: a record is stored in the slot, the
/// caller authorized the call, the slot's address is the one that the
/// record's seeds and stored tag give, the caller is the record's owner, and
/// the record is still open. `rederived` is that address.
pub open spec fn cancellation_permitted(accounts: CancelIntent, rederived: Option<Address>)
    -> bool {
    &&& accounts.intent.data matches Some(intent)
    &&& accounts.user.is_signer
    &&& rederived == Some(accounts.intent.key)
    &&& intent.user == accounts.user.key
    &&& !intent.fulfilled
}

/// The failure with which a cancellation is refused, if it is: the first of
/// the record's presence, the caller's signature, the record's address, the
/// caller being the owner, and the record being open that fails.
pub open spec fn cancellation_rejection(accounts: CancelIntent, rederived: Option<Address>)
    -> Option<ProtocolError> {
    match accounts.intent.data {
        None => Some(ProtocolError::Ledger(LedgerError::AccountNotInitialized)),
        Some(intent) => if !accounts.user.is_signer {
            Some(ProtocolError::Ledger(LedgerError::AccountNotSigner))
        } else if rederived != Some(accounts.intent.key) {
            Some(ProtocolError::Ledger(LedgerError::ConstraintSeeds))
        } else if intent.user != accounts.user.key {
            Some(ProtocolError::Custom(CustomError::Unauthorized))
        } else if intent.fulfilled {
            Some(ProtocolError::Custom(CustomError::IntentAlreadyFulfilled))
        } else {
            None
        },
    }
}

/// What a cancellation yields: the notification with the record's owner, id
/// and trade terms where it is permitted, else the failure.
pub open spec fn cancellation(accounts: CancelIntent, rederived: Option<Address>) -> Result<
    IntentCancelledEvent,
    ProtocolError,
> {
    match cancellation_rejection(accounts, rederived) {
        Some(e) => Err(e),
        None => Ok(IntentCancelledEvent::of(accounts.intent.key, accounts.intent.data.unwrap())),
    }
}

/// The address that the seeds of the record named in `accounts` give with
/// the tag stored in it; `None` where no record is stored.
pub open spec fn rederived_cancel_address(
    program_id: Address,
    accounts: CancelIntent,
    intent_id: u64,
) -> Option<Address> {
    match accounts.intent.data {
        Some(intent) => intent_address_with(
            program_id,
            accounts.user.key,
            intent_id,
            intent.bump,
        ),
        None => None,
    }
}

/// A cancellation is refused exactly when it is not permitted.
pub proof fn lemma_cancellation_rejected_iff_not_permitted(
    accounts: CancelIntent,
    rederived: Option<Address>,
)
    ensures
        cancellation_rejection(accounts, rederived) is None <==> cancellation_permitted(
            accounts,
            rederived,
        ),
{
}

/// Decides a cancellation, given the address `rederived` that the record's
/// seeds and stored tag give. Returns the notification where every check
/// passes, and the record is then to be deleted; else the first failure.
pub fn close_intent(accounts: &CancelIntent, rederived: Option<Address>) -> (r: Result<
    IntentCancelledEvent,
    ProtocolError,
>)
    ensures
        r == cancellation(*accounts, rederived),
        r is Ok <==> cancellation_permitted(*accounts, rederived),
{
    let intent = match accounts.intent.data {
        None => {
            return Err(ProtocolError::Ledger(LedgerError::AccountNotInitialized));
        },
        Some(intent) => intent,
    };
    if !accounts.user.is_signer {
        return Err(ProtocolError::Ledger(LedgerError::AccountNotSigner));
    }
    match rederived {
        None => {
            return Err(ProtocolError::Ledger(LedgerError::ConstraintSeeds));
        },
        Some(address) => {
            if address != accounts.intent.key {
                return Err(ProtocolError::Ledger(LedgerError::ConstraintSeeds));
            }
        },
    }
    if intent.user != accounts.user.key {
        return Err(ProtocolError::Custom(CustomError::Unauthorized));
    }
    if intent.fulfilled {
        return Err(ProtocolError::Custom(CustomError::IntentAlreadyFulfilled));
    }
    Ok(
        IntentCancelledEvent {
            intent_pda: accounts.intent.key,
            user: intent.user,
            intent_id: intent.intent_id,
            input_mint: intent.input_mint,
            output_mint: intent.output_mint,
            input_amount: intent.input_amount,
        },
    )
}

/// Cancels the intent named in `accounts` for the deployment `program_id`:
/// re-derives the record's address from the caller, the id and the stored
/// tag, and decides as `close_intent` does.
pub fn cancel_intent(program_id: &Address, accounts: &CancelIntent, intent_id: u64) -> (r: Result<
    IntentCancelledEvent,
    ProtocolError,
>)
    ensures
        r == cancellation(*accounts, rederived_cancel_address(*program_id, *accounts, intent_id)),
        r is Ok <==> cancellation_permitted(
            *accounts,
            rederived_cancel_address(*program_id, *accounts, intent_id),
        ),
{
    let rederived = match accounts.intent.data {
        Some(intent) => intent_address_with_bump(
            program_id,
            &accounts.user.key,
            intent_id,
            intent.bump,
        ),
        None => None,
    };
    close_intent(accounts, rederived)
}

} // verus!
