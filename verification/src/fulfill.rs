//! Fulfillment: the checks a solver's attempt must pass, and the settlement
//! that a passing attempt yields.

use crate::accounts::{FulfillIntent, Settlement, Transfer};
use crate::address::Address;
use crate::error::{CustomError, LedgerError, ProtocolError};
use crate::intent::{Intent, IntentFulfilledEvent};
use crate::pda::{
    authority_address, find_authority, intent_address_with, intent_address_with_bump,
};
use vstd::prelude::*;

verus! {

/// The four asset accounts hold the intent's assets, the user-side ones
/// belong to the intent's owner and the solver-side ones to the solver, and
/// the owner named in the call is the intent's owner.
pub open spec fn accounts_match(accounts: FulfillIntent, intent: Intent) -> bool {
    &&& accounts.user_input_token_account.mint == intent.input_mint
    &&& accounts.user_output_token_account.mint == intent.output_mint
    &&& accounts.solver_input_token_account.mint == intent.input_mint
    &&& accounts.solver_output_token_account.mint == intent.output_mint
    &&& accounts.user_input_token_account.owner == intent.user
    &&& accounts.user_output_token_account.owner == intent.user
    &&& accounts.user == intent.user
    &&& accounts.solver_input_token_account.owner == accounts.solver.key
    &&& accounts.solver_output_token_account.owner == accounts.solver.key
}

/// The owner's input account has granted the named authority an allowance
/// that covers the intent's input amount.
pub open spec fn allowance_covers(accounts: FulfillIntent, intent: Intent) -> bool {
    &&& accounts.user_input_token_account.delegate == Some(accounts.intent_authority.key)
    &&& accounts.user_input_token_account.delegated_amount >= intent.input_amount
}

/// The authority named in the call is the canonical one, `authority`, tag
/// included.
pub open spec fn authority_genuine(accounts: FulfillIntent, authority: Option<(Address, u8)>)
    -> bool {
    authority == Some((accounts.intent_authority.key, accounts.intent_authority.bump))
}

/// Whether a fulfillment is permitted: every condition holds. `rederived` is
/// the address that the record's seeds and stored tag give, `authority` the
/// canonical authority.
pub open spec fn fulfillment_permitted(
    accounts: FulfillIntent,
    output_amount_to_user: u64,
    now: i64,
    rederived: Option<Address>,
    authority: Option<(Address, u8)>,
) -> bool {
    &&& accounts.intent.data matches Some(intent)
    &&& accounts.solver.is_signer
    &&& rederived == Some(accounts.intent.key)
    &&& !intent.fulfilled
    &&& accounts_match(accounts, intent)
    &&& output_amount_to_user > 0
    &&& !intent.expired_at(now)
    &&& allowance_covers(accounts, intent)
    &&& authority_genuine(accounts, authority)
}

/// The first of the account checks that fails, if any. The order is: the
/// asset types of the owner's two accounts and then of the solver's two, the
/// fulfilled flag, the owners of the owner's two accounts, the owner named in
/// the call, the owners of the solver's two accounts.
pub open spec fn account_rejection(accounts: FulfillIntent, intent: Intent) -> Option<CustomError> {
    if accounts.user_input_token_account.mint != intent.input_mint {
        Some(CustomError::InputMintMismatch)
    } else if accounts.user_output_token_account.mint != intent.output_mint {
        Some(CustomError::OutputMintMismatch)
    } else if accounts.solver_input_token_account.mint != intent.input_mint {
        Some(CustomError::InputMintMismatch)
    } else if accounts.solver_output_token_account.mint != intent.output_mint {
        Some(CustomError::OutputMintMismatch)
    } else if intent.fulfilled {
        Some(CustomError::IntentAlreadyFulfilled)
    } else if accounts.user_input_token_account.owner != intent.user
        || accounts.user_output_token_account.owner != intent.user {
        Some(CustomError::UserTokenAccountMismatch)
    } else if accounts.user != intent.user {
        Some(CustomError::UserAccountMismatch)
    } else if accounts.solver_input_token_account.owner != accounts.solver.key
        || accounts.solver_output_token_account.owner != accounts.solver.key {
        Some(CustomError::SolverTokenAccountMismatch)
    } else {
        None
    }
}

/// The first of the checks on the offer that fails, if any: the offered
/// amount, the expiry, the delegate, the allowance, the authority's tag, the
/// authority's address.
pub open spec fn offer_rejection(
    accounts: FulfillIntent,
    intent: Intent,
    output_amount_to_user: u64,
    now: i64,
    authority: Option<(Address, u8)>,
) -> Option<CustomError> {
    if output_amount_to_user == 0 {
        Some(CustomError::InvalidOutputAmount)
    } else if intent.expired_at(now) {
        Some(CustomError::IntentExpired)
    } else if accounts.user_input_token_account.delegate != Some(accounts.intent_authority.key) {
        Some(CustomError::DelegateNotSet)
    } else if accounts.user_input_token_account.delegated_amount < intent.input_amount {
        Some(CustomError::InsufficientDelegatedAmount)
    } else {
        match authority {
            None => Some(CustomError::InvalidAuthorityPDA),
            Some((key, bump)) => if bump != accounts.intent_authority.bump {
                Some(CustomError::BumpMismatch)
            } else if key != accounts.intent_authority.key {
                Some(CustomError::InvalidAuthorityPDA)
            } else {
                None
            },
        }
    }
}

/// The failure with which a fulfillment is refused, if it is: the first
/// check that fails, the record's presence, the solver's signature and the
/// record's address coming before the account checks, and those before the
/// checks on the offer.
pub open spec fn fulfillment_rejection(
    accounts: FulfillIntent,
    output_amount_to_user: u64,
    now: i64,
    rederived: Option<Address>,
    authority: Option<(Address, u8)>,
) -> Option<ProtocolError> {
    match accounts.intent.data {
        None => Some(ProtocolError::Ledger(LedgerError::AccountNotInitialized)),
        Some(intent) => if !accounts.solver.is_signer {
            Some(ProtocolError::Ledger(LedgerError::AccountNotSigner))
        } else if rederived != Some(accounts.intent.key) {
            Some(ProtocolError::Ledger(LedgerError::ConstraintSeeds))
        } else if let Some(e) = account_rejection(accounts, intent) {
            Some(ProtocolError::Custom(e))
        } else if let Some(e) = offer_rejection(
            accounts,
            intent,
            output_amount_to_user,
            now,
            authority,
        ) {
            Some(ProtocolError::Custom(e))
        } else {
            None
        },
    }
}

/// The settlement of the open record `intent` by the solver of `accounts`:
/// the first leg moves exactly the intent's input amount from the owner's
/// input account to the solver's, on the authority's word; the second moves
/// exactly the offered amount from the solver's output account to the
/// owner's, on the solver's word; the record is marked fulfilled.
pub open spec fn settlement_of(
    accounts: FulfillIntent,
    intent: Intent,
    output_amount_to_user: u64,
    now: i64,
) -> Settlement {
    Settlement {
        user_to_solver: Transfer {
            from: accounts.user_input_token_account.key,
            to: accounts.solver_input_token_account.key,
            authority: accounts.intent_authority.key,
            amount: intent.input_amount,
        },
        authority_bump: accounts.intent_authority.bump,
        solver_to_user: Transfer {
            from: accounts.solver_output_token_account.key,
            to: accounts.user_output_token_account.key,
            authority: accounts.solver.key,
            amount: output_amount_to_user,
        },
        intent: intent.filled(accounts.solver.key, output_amount_to_user, now),
        event: IntentFulfilledEvent::of(
            accounts.intent.key,
            intent,
            accounts.solver.key,
            output_amount_to_user,
            now,
        ),
    }
}

/// What a fulfillment yields: the settlement where it is permitted, else the
/// failure.
pub open spec fn fulfillment(
    accounts: FulfillIntent,
    output_amount_to_user: u64,
    now: i64,
    rederived: Option<Address>,
    authority: Option<(Address, u8)>,
) -> Result<Settlement, ProtocolError> {
    match fulfillment_rejection(accounts, output_amount_to_user, now, rederived, authority) {
        Some(e) => Err(e),
        None => Ok(
            settlement_of(accounts, accounts.intent.data.unwrap(), output_amount_to_user, now),
        ),
    }
}

/// The address that the seeds of the record named in `accounts` give with
/// the tag stored in it; `None` where no record is stored.
pub open spec fn rederived_intent_address(
    program_id: Address,
    accounts: FulfillIntent,
    intent_id: u64,
) -> Option<Address> {
    match accounts.intent.data {
        Some(intent) => intent_address_with(program_id, accounts.user, intent_id, intent.bump),
        None => None,
    }
}

/// A fulfillment is refused exactly when it is not permitted.
pub proof fn lemma_rejected_iff_not_permitted(
    accounts: FulfillIntent,
    output_amount_to_user: u64,
    now: i64,
    rederived: Option<Address>,
    authority: Option<(Address, u8)>,
)
    ensures
        fulfillment_rejection(accounts, output_amount_to_user, now, rederived, authority) is None
            <==> fulfillment_permitted(accounts, output_amount_to_user, now, rederived, authority),
{
}

fn check_accounts(accounts: &FulfillIntent, intent: &Intent) -> (r: Option<CustomError>)
    ensures
        r == account_rejection(*accounts, *intent),
{
    if accounts.user_input_token_account.mint != intent.input_mint {
        return Some(CustomError::InputMintMismatch);
    }
    if accounts.user_output_token_account.mint != intent.output_mint {
        return Some(CustomError::OutputMintMismatch);
    }
    if accounts.solver_input_token_account.mint != intent.input_mint {
        return Some(CustomError::InputMintMismatch);
    }
    if accounts.solver_output_token_account.mint != intent.output_mint {
        return Some(CustomError::OutputMintMismatch);
    }
    if intent.fulfilled {
        return Some(CustomError::IntentAlreadyFulfilled);
    }
    if accounts.user_input_token_account.owner != intent.user {
        return Some(CustomError::UserTokenAccountMismatch);
    }
    if accounts.user_output_token_account.owner != intent.user {
        return Some(CustomError::UserTokenAccountMismatch);
    }
    if accounts.user != intent.user {
        return Some(CustomError::UserAccountMismatch);
    }
    if accounts.solver_input_token_account.owner != accounts.solver.key {
        return Some(CustomError::SolverTokenAccountMismatch);
    }
    if accounts.solver_output_token_account.owner != accounts.solver.key {
        return Some(CustomError::SolverTokenAccountMismatch);
    }
    None
}

fn check_offer(
    accounts: &FulfillIntent,
    intent: &Intent,
    output_amount_to_user: u64,
    now: i64,
    authority: Option<(Address, u8)>,
) -> (r: Option<CustomError>)
    ensures
        r == offer_rejection(
            *accounts,
            *intent,
            output_amount_to_user,
            now,
            authority,
        ),
{
    if output_amount_to_user == 0 {
        return Some(CustomError::InvalidOutputAmount);
    }
    if let Some(expiry) = intent.expiry_ts {
        if now >= expiry {
            return Some(CustomError::IntentExpired);
        }
    }
    if !accounts.intent_authority.key.is_in(&accounts.user_input_token_account.delegate) {
        return Some(CustomError::DelegateNotSet);
    }
    if accounts.user_input_token_account.delegated_amount < intent.input_amount {
        return Some(CustomError::InsufficientDelegatedAmount);
    }
    match authority {
        None => Some(CustomError::InvalidAuthorityPDA),
        Some((key, bump)) => {
            if bump != accounts.intent_authority.bump {
                Some(CustomError::BumpMismatch)
            } else if key != accounts.intent_authority.key {
                Some(CustomError::InvalidAuthorityPDA)
            } else {
                None
            }
        },
    }
}

/// Decides a fulfillment, given the address `rederived` that the record's
/// seeds and stored tag give and the canonical `authority`. Returns the
/// settlement where every check passes, else the first failure.
pub fn settle_intent(
    accounts: &FulfillIntent,
    output_amount_to_user: u64,
    now: i64,
    rederived: Option<Address>,
    authority: Option<(Address, u8)>,
) -> (r: Result<Settlement, ProtocolError>)
    ensures
        r == fulfillment(
            *accounts,
            output_amount_to_user,
            now,
            rederived,
            authority,
        ),
        r is Ok <==> fulfillment_permitted(
            *accounts,
            output_amount_to_user,
            now,
            rederived,
            authority,
        ),
{
    proof {
        lemma_rejected_iff_not_permitted(
            *accounts,
            output_amount_to_user,
            now,
            rederived,
            authority,
        );
    }
    let intent = match accounts.intent.data {
        None => {
            return Err(ProtocolError::Ledger(LedgerError::AccountNotInitialized));
        },
        Some(intent) => intent,
    };
    if !accounts.solver.is_signer {
        return Err(ProtocolError::Ledger(LedgerError::AccountNotSigner));
    }
    match rederived {
        None => {
            return Err(ProtocolError::Ledger(LedgerError::ConstraintSeeds));
        },
        Some(address) => {
            if address != accounts.intent.key {
                return Err(ProtocolError::Ledger(LedgerError::ConstraintSeeds));
            }
        },
    }
    if let Some(e) = check_accounts(accounts, &intent) {
        return Err(ProtocolError::Custom(e));
    }
    if let Some(e) = check_offer(accounts, &intent, output_amount_to_user, now, authority) {
        return Err(ProtocolError::Custom(e));
    }
    let solver = accounts.solver.key;
    Ok(
        Settlement {
            user_to_solver: Transfer {
                from: accounts.user_input_token_account.key,
                to: accounts.solver_input_token_account.key,
                authority: accounts.intent_authority.key,
                amount: intent.input_amount,
            },
            authority_bump: accounts.intent_authority.bump,
            solver_to_user: Transfer {
                from: accounts.solver_output_token_account.key,
                to: accounts.user_output_token_account.key,
                authority: solver,
                amount: output_amount_to_user,
            },
            intent: Intent {
                user: intent.user,
                intent_id: intent.intent_id,
                input_mint: intent.input_mint,
                output_mint: intent.output_mint,
                input_amount: intent.input_amount,
                category: intent.category,
                creation_ts: intent.creation_ts,
                expiry_ts: intent.expiry_ts,
                fulfilled: true,
                solver: Some(solver),
                output_amount_fulfilled: Some(output_amount_to_user),
                fulfilled_timestamp: Some(now),
                bump: intent.bump,
            },
            event: IntentFulfilledEvent {
                intent_pda: accounts.intent.key,
                user: intent.user,
                intent_id: intent.intent_id,
                solver,
                input_mint: intent.input_mint,
                output_mint: intent.output_mint,
                input_amount: intent.input_amount,
                output_amount_fulfilled: output_amount_to_user,
                fulfilled_timestamp: now,
                category: intent.category,
            },
        },
    )
}

/// Fulfills the intent named in `accounts` for the deployment `program_id`
/// at time `now`: re-derives the record's address from the owner, the id and
/// the stored tag, re-derives the authority from its label, and decides as
/// `settle_intent` does.
pub fn fulfill_intent(
    program_id: &Address,
    accounts: &FulfillIntent,
    intent_id: u64,
    output_amount_to_user: u64,
    now: i64,
) -> (r: Result<Settlement, ProtocolError>)
    ensures
        r == fulfillment(
            *accounts,
            output_amount_to_user,
            now,
            rederived_intent_address(*program_id, *accounts, intent_id),
            authority_address(*program_id),
        ),
        r is Ok <==> fulfillment_permitted(
            *accounts,
            output_amount_to_user,
            now,
            rederived_intent_address(*program_id, *accounts, intent_id),
            authority_address(*program_id),
        ),
{
    let rederived = match accounts.intent.data {
        Some(intent) => intent_address_with_bump(
            program_id,
            &accounts.user,
            intent_id,
            intent.bump,
        ),
        None => None,
    };
    let authority = find_authority(program_id);
    settle_intent(accounts, output_amount_to_user, now, rederived, authority)
}

} // verus!
