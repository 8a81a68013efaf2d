//! Submission: the checks a new intent must pass, and the record that a
//! passing submission creates.

use crate::accounts::SubmitIntent;
use crate::address::Address;
use crate::error::{CustomError, LedgerError, ProtocolError};
use crate::intent::{Intent, IntentSubmittedEvent};
use crate::pda::{find_intent_address, intent_address};
use vstd::prelude::*;

verus! {

/// Whether a submission is permitted: the owner authorized it, the slot
/// named is the canonical one for the owner and the id, nothing is stored
/// there yet, an expiry time, where given, lies strictly after `now`, and
/// the input amount is positive. `found` is the canonical address of the
/// record, with its tag.
pub open spec fn submission_permitted(
    accounts: SubmitIntent,
    input_amount: u64,
    expiry_ts: Option<i64>,
    now: i64,
    found: Option<(Address, u8)>,
) -> bool {
    &&& accounts.user.is_signer
    &&& found matches Some((address, _))
    &&& address == accounts.intent.key
    &&& accounts.intent.data is None
    &&& expiry_ts matches Some(expiry) ==> expiry > now
    &&& input_amount > 0
}

/// The failure with which a submission is refused, if it is: the first of
/// the owner's signature, the slot's address, the slot being free, the
/// expiry time and the input amount that fails.
pub open spec fn submission_rejection(
    accounts: SubmitIntent,
    input_amount: u64,
    expiry_ts: Option<i64>,
    now: i64,
    found: Option<(Address, u8)>,
) -> Option<ProtocolError> {
    if !accounts.user.is_signer {
        Some(ProtocolError::Ledger(LedgerError::AccountNotSigner))
    } else if !(found matches Some((address, _)) && address == accounts.intent.key) {
        Some(ProtocolError::Ledger(LedgerError::ConstraintSeeds))
    } else if accounts.intent.data is Some {
        Some(ProtocolError::Ledger(LedgerError::AccountAlreadyInUse))
    } else if expiry_ts matches Some(expiry) && expiry <= now {
        Some(ProtocolError::Custom(CustomError::ExpiryInPast))
    } else if input_amount == 0 {
        Some(ProtocolError::Custom(CustomError::InvalidInputAmount))
    } else {
        None
    }
}

/// What a submission yields: where it is permitted, the new record, which
/// holds the submitted terms unchanged, the owner, `now` as its creation
/// time and the canonical tag, and is open; else the failure. No record
/// comes of a submission with an input amount of zero.
pub open spec fn submission(
    accounts: SubmitIntent,
    intent_id: u64,
    input_mint: Address,
    output_mint: Address,
    input_amount: u64,
    expiry_ts: Option<i64>,
    category: u64,
    now: i64,
    found: Option<(Address, u8)>,
) -> Result<Intent, ProtocolError> {
    match submission_rejection(accounts, input_amount, expiry_ts, now, found) {
        Some(e) => Err(e),
        None => Ok(
            Intent::created(
                accounts.user.key,
                intent_id,
                input_mint,
                output_mint,
                input_amount,
                expiry_ts,
                category,
                now,
                found.unwrap().1,
            ),
        ),
    }
}

/// A submission is refused exactly when it is not permitted.
pub proof fn lemma_submission_rejected_iff_not_permitted(
    accounts: SubmitIntent,
    input_amount: u64,
    expiry_ts: Option<i64>,
    now: i64,
    found: Option<(Address, u8)>,
)
    ensures
        submission_rejection(accounts, input_amount, expiry_ts, now, found) is None
            <==> submission_permitted(accounts, input_amount, expiry_ts, now, found),
{
}

/// Decides a submission, given the canonical address `found` of the record
/// and its tag. Returns the new record and its notification where every
/// check passes, else the first failure.
pub fn open_intent(
    accounts: &SubmitIntent,
    intent_id: u64,
    input_mint: Address,
    output_mint: Address,
    input_amount: u64,
    expiry_ts: Option<i64>,
    category: u64,
    now: i64,
    found: Option<(Address, u8)>,
) -> (r: Result<(Intent, IntentSubmittedEvent), ProtocolError>)
    ensures
        r is Ok <==> submission_permitted(*accounts, input_amount, expiry_ts, now, found),
        match r {
            Ok((intent, event)) => {
                &&& submission(
                    *accounts,
                    intent_id,
                    input_mint,
                    output_mint,
                    input_amount,
                    expiry_ts,
                    category,
                    now,
                    found,
                ) == Ok::<Intent, ProtocolError>(intent)
                &&& event == IntentSubmittedEvent::of(accounts.intent.key, intent)
            },
            Err(e) => submission_rejection(*accounts, input_amount, expiry_ts, now, found)
                == Some(e),
        },
{
    if !accounts.user.is_signer {
        return Err(ProtocolError::Ledger(LedgerError::AccountNotSigner));
    }
    let bump = match found {
        None => {
            return Err(ProtocolError::Ledger(LedgerError::ConstraintSeeds));
        },
        Some((address, bump)) => {
            if address != accounts.intent.key {
                return Err(ProtocolError::Ledger(LedgerError::ConstraintSeeds));
            }
            bump
        },
    };
    if accounts.intent.data.is_some() {
        return Err(ProtocolError::Ledger(LedgerError::AccountAlreadyInUse));
    }
    if let Some(expiry) = expiry_ts {
        if expiry <= now {
            return Err(ProtocolError::Custom(CustomError::ExpiryInPast));
        }
    }
    if input_amount == 0 {
        return Err(ProtocolError::Custom(CustomError::InvalidInputAmount));
    }
    let intent = Intent {
        user: accounts.user.key,
        intent_id,
        input_mint,
        output_mint,
        input_amount,
        category,
        creation_ts: now,
        expiry_ts,
        fulfilled: false,
        solver: None,
        output_amount_fulfilled: None,
        fulfilled_timestamp: None,
        bump,
    };
    let event = IntentSubmittedEvent {
        intent_pda: accounts.intent.key,
        user: intent.user,
        intent_id,
        input_mint,
        output_mint,
        input_amount,
        expiry_ts,
        category,
        creation_ts: now,
    };
    Ok((intent, event))
}

/// Submits an intent for the deployment `program_id` at time `now`: derives
/// the canonical address of the record from the owner and the id, and
/// decides as `open_intent` does. A record that it creates belongs at the
/// slot named.
pub fn submit_intent(
    program_id: &Address,
    accounts: &SubmitIntent,
    intent_id: u64,
    input_mint: Address,
    output_mint: Address,
    input_amount: u64,
    expiry_ts: Option<i64>,
    category: u64,
    now: i64,
) -> (r: Result<(Intent, IntentSubmittedEvent), ProtocolError>)
    ensures
        r is Ok <==> submission_permitted(
            *accounts,
            input_amount,
            expiry_ts,
            now,
            intent_address(*program_id, accounts.user.key, intent_id),
        ),
        match r {
            Ok((intent, event)) => {
                &&& submission(
                    *accounts,
                    intent_id,
                    input_mint,
                    output_mint,
                    input_amount,
                    expiry_ts,
                    category,
                    now,
                    intent_address(*program_id, accounts.user.key, intent_id),
                ) == Ok::<Intent, ProtocolError>(intent)
                &&& event == IntentSubmittedEvent::of(accounts.intent.key, intent)
            },
            Err(e) => submission_rejection(
                *accounts,
                input_amount,
                expiry_ts,
                now,
                intent_address(*program_id, accounts.user.key, intent_id),
            ) == Some(e),
        },
        r matches Ok((intent, _)) ==> intent.anchored_at(*program_id, accounts.intent.key),
{
    let found = find_intent_address(program_id, &accounts.user.key, intent_id);
    open_intent(
        accounts,
        intent_id,
        input_mint,
        output_mint,
        input_amount,
        expiry_ts,
        category,
        now,
        found,
    )
}

} // verus!
