//! What holds of the lifecycle as a whole, proved from the definitions that
//! the operations' contracts use.

use crate::accounts::{CancelIntent, FulfillIntent, SubmitIntent};
use crate::address::Address;
use crate::error::{CustomError, ErrorKind, LedgerError, ProtocolError};
use crate::fulfill::{
    accounts_match, allowance_covers, authority_genuine, fulfillment, fulfillment_permitted,
    settlement_of,
};
use crate::intent::{Intent, IntentCancelledEvent};
use crate::pda::authority_address;
use crate::store::{
    after_cancel, after_fulfill, after_submit, cancel_outcome, fulfill_outcome, submit_outcome,
};
use crate::submit::submission;
use vstd::prelude::*;

verus! {

/// A permitted submission creates a record that holds exactly the submitted
/// terms, belongs to the submitting owner, has a positive input amount, and
/// is open, with no solver, no delivered amount and no fulfillment time.
pub proof fn lemma_submission_keeps_terms(
    accounts: SubmitIntent,
    intent_id: u64,
    input_mint: Address,
    output_mint: Address,
    input_amount: u64,
    expiry_ts: Option<i64>,
    category: u64,
    now: i64,
    found: Option<(Address, u8)>,
)
    requires
        submission(
            accounts,
            intent_id,
            input_mint,
            output_mint,
            input_amount,
            expiry_ts,
            category,
            now,
            found,
        ) is Ok,
    ensures
        ({
            let intent = submission(
                accounts,
                intent_id,
                input_mint,
                output_mint,
                input_amount,
                expiry_ts,
                category,
                now,
                found,
            )->Ok_0;
            &&& intent.user == accounts.user.key
            &&& intent.intent_id == intent_id
            &&& intent.input_mint == input_mint
            &&& intent.output_mint == output_mint
            &&& intent.input_amount == input_amount
            &&& intent.input_amount > 0
            &&& intent.expiry_ts == expiry_ts
            &&& intent.category == category
            &&& intent.creation_ts == now
            &&& !intent.fulfilled
            &&& intent.solver is None
            &&& intent.output_amount_fulfilled is None
            &&& intent.fulfilled_timestamp is None
            &&& intent.wf()
        }),
{
}

/// After a permitted submission the store holds the new record, unchanged
/// and with a positive input amount, in the slot named, and every other slot
/// is as before.
pub proof fn lemma_submitted_record_is_stored(
    records: Map<Address, Intent>,
    program_id: Address,
    accounts: SubmitIntent,
    intent_id: u64,
    input_mint: Address,
    output_mint: Address,
    input_amount: u64,
    expiry_ts: Option<i64>,
    category: u64,
    now: i64,
)
    requires
        submit_outcome(
            records,
            program_id,
            accounts,
            intent_id,
            input_mint,
            output_mint,
            input_amount,
            expiry_ts,
            category,
            now,
        ) is Ok,
    ensures
        ({
            let after = after_submit(
                records,
                program_id,
                accounts,
                intent_id,
                input_mint,
                output_mint,
                input_amount,
                expiry_ts,
                category,
                now,
            );
            &&& !records.contains_key(accounts.intent.key)
            &&& after.contains_key(accounts.intent.key)
            &&& after[accounts.intent.key].input_amount > 0
            &&& after[accounts.intent.key].wf()
            &&& Ok::<Intent, ProtocolError>(after[accounts.intent.key]) == submit_outcome(
                records,
                program_id,
                accounts,
                intent_id,
                input_mint,
                output_mint,
                input_amount,
                expiry_ts,
                category,
                now,
            )
            &&& after.remove(accounts.intent.key) == records
        }),
{
    let after = after_submit(
        records,
        program_id,
        accounts,
        intent_id,
        input_mint,
        output_mint,
        input_amount,
        expiry_ts,
        category,
        now,
    );
    assert(after.remove(accounts.intent.key) =~= records);
}

/// Once an intent of an owner with an id has been submitted, a second
/// submission by the same owner with the same id is refused, whatever its
/// terms, and the store keeps the first record: nothing is overwritten.
/// Where the second submission is signed and names the same slot, the
/// failure is the conflict `AccountAlreadyInUse`, a failure of state.
pub proof fn lemma_resubmission_conflicts(
    records: Map<Address, Intent>,
    program_id: Address,
    first: SubmitIntent,
    second: SubmitIntent,
    intent_id: u64,
    first_input_mint: Address,
    first_output_mint: Address,
    first_input_amount: u64,
    first_expiry_ts: Option<i64>,
    first_category: u64,
    first_now: i64,
    second_input_mint: Address,
    second_output_mint: Address,
    second_input_amount: u64,
    second_expiry_ts: Option<i64>,
    second_category: u64,
    second_now: i64,
)
    requires
        first.user.key == second.user.key,
        submit_outcome(
            records,
            program_id,
            first,
            intent_id,
            first_input_mint,
            first_output_mint,
            first_input_amount,
            first_expiry_ts,
            first_category,
            first_now,
        ) is Ok,
    ensures
        ({
            let between = after_submit(
                records,
                program_id,
                first,
                intent_id,
                first_input_mint,
                first_output_mint,
                first_input_amount,
                first_expiry_ts,
                first_category,
                first_now,
            );
            let outcome = submit_outcome(
                between,
                program_id,
                second,
                intent_id,
                second_input_mint,
                second_output_mint,
                second_input_amount,
                second_expiry_ts,
                second_category,
                second_now,
            );
            &&& outcome is Err
            &&& after_submit(
                between,
                program_id,
                second,
                intent_id,
                second_input_mint,
                second_output_mint,
                second_input_amount,
                second_expiry_ts,
                second_category,
                second_now,
            ) == between
            &&& second.user.is_signer && second.intent.key == first.intent.key ==> {
                &&& outcome == Err::<Intent, ProtocolError>(
                    ProtocolError::Ledger(LedgerError::AccountAlreadyInUse),
                )
                &&& outcome->Err_0.spec_kind() == ErrorKind::State
            }
        }),
{
}

/// A submission whose expiry time is `now` or earlier is refused. Where it
/// is signed and names the canonical, free slot, the failure is
/// `ExpiryInPast`, a failure of terms.
pub proof fn lemma_expiry_must_be_future(
    accounts: SubmitIntent,
    intent_id: u64,
    input_mint: Address,
    output_mint: Address,
    input_amount: u64,
    expiry: i64,
    category: u64,
    now: i64,
    found: Option<(Address, u8)>,
)
    requires
        expiry <= now,
    ensures
        ({
            let outcome = submission(
                accounts,
                intent_id,
                input_mint,
                output_mint,
                input_amount,
                Some(expiry),
                category,
                now,
                found,
            );
            &&& outcome is Err
            &&& (accounts.user.is_signer && accounts.intent.data is None && found is Some
                && found->Some_0.0 == accounts.intent.key) ==> {
                &&& outcome == Err::<Intent, ProtocolError>(
                    ProtocolError::Custom(CustomError::ExpiryInPast),
                )
                &&& outcome->Err_0.spec_kind() == ErrorKind::Terms
            }
        }),
{
}

/// A fulfilled record is never fulfilled again: whatever else the call
/// names or offers, it is refused.
pub proof fn lemma_fulfilled_is_final(
    accounts: FulfillIntent,
    output_amount_to_user: u64,
    now: i64,
    rederived: Option<Address>,
    authority: Option<(Address, u8)>,
)
    requires
        accounts.intent.data matches Some(intent) && intent.fulfilled,
    ensures
        fulfillment(accounts, output_amount_to_user, now, rederived, authority) is Err,
{
}

/// Fulfilling a fulfilled record in the store is refused and changes
/// nothing in the store.
pub proof fn lemma_fulfilled_is_final_in_store(
    records: Map<Address, Intent>,
    program_id: Address,
    accounts: FulfillIntent,
    intent_id: u64,
    output_amount_to_user: u64,
    now: i64,
)
    requires
        records.contains_key(accounts.intent.key),
        records[accounts.intent.key].fulfilled,
    ensures
        fulfill_outcome(records, program_id, accounts, intent_id, output_amount_to_user, now)
            is Err,
        after_fulfill(records, program_id, accounts, intent_id, output_amount_to_user, now)
            == records,
{
}

/// An intent is fulfilled at most once: after a permitted fulfillment in
/// the store, every further fulfillment that names the same slot is refused
/// and changes nothing.
pub proof fn lemma_fulfilled_at_most_once(
    records: Map<Address, Intent>,
    program_id: Address,
    first: FulfillIntent,
    second: FulfillIntent,
    first_intent_id: u64,
    second_intent_id: u64,
    first_amount: u64,
    second_amount: u64,
    first_now: i64,
    second_now: i64,
)
    requires
        first.intent.key == second.intent.key,
        fulfill_outcome(records, program_id, first, first_intent_id, first_amount, first_now)
            is Ok,
    ensures
        ({
            let between = after_fulfill(
                records,
                program_id,
                first,
                first_intent_id,
                first_amount,
                first_now,
            );
            &&& fulfill_outcome(
                between,
                program_id,
                second,
                second_intent_id,
                second_amount,
                second_now,
            ) is Err
            &&& after_fulfill(
                between,
                program_id,
                second,
                second_intent_id,
                second_amount,
                second_now,
            ) == between
        }),
{
}

/// A fulfillment is refused where the allowance that the owner's input
/// account grants is below the intent's input amount; no settlement, and so
/// no transfer, comes of it. Where every other condition holds, the failure
/// is `InsufficientDelegatedAmount`, a failure of authorization, and an
/// allowance that reaches the input amount is enough.
pub proof fn lemma_allowance_must_cover_input(
    accounts: FulfillIntent,
    output_amount_to_user: u64,
    now: i64,
    rederived: Option<Address>,
    authority: Option<(Address, u8)>,
)
    requires
        accounts.intent.data is Some,
    ensures
        ({
            let intent = accounts.intent.data->Some_0;
            let allowance = accounts.user_input_token_account.delegated_amount;
            let outcome = fulfillment(accounts, output_amount_to_user, now, rederived, authority);
            let rest = {
                &&& accounts.solver.is_signer
                &&& rederived == Some(accounts.intent.key)
                &&& !intent.fulfilled
                &&& accounts_match(accounts, intent)
                &&& output_amount_to_user > 0
                &&& !intent.expired_at(now)
                &&& accounts.user_input_token_account.delegate == Some(
                    accounts.intent_authority.key,
                )
                &&& authority_genuine(accounts, authority)
            };
            &&& allowance < intent.input_amount ==> outcome is Err
            &&& rest && allowance < intent.input_amount ==> {
                &&& outcome == Err::<crate::accounts::Settlement, ProtocolError>(
                    ProtocolError::Custom(CustomError::InsufficientDelegatedAmount),
                )
                &&& outcome->Err_0.spec_kind() == ErrorKind::Authorization
            }
            &&& rest && allowance >= intent.input_amount ==> outcome is Ok
        }),
{
}

/// A fulfillment at or after the intent's expiry time is refused, whatever
/// the allowance and the amounts. Where every earlier check passes and the
/// offered amount is positive, the failure is `IntentExpired`, a failure of
/// terms.
pub proof fn lemma_expired_intent_refused(
    accounts: FulfillIntent,
    output_amount_to_user: u64,
    now: i64,
    rederived: Option<Address>,
    authority: Option<(Address, u8)>,
)
    requires
        accounts.intent.data matches Some(intent) && intent.expired_at(now),
    ensures
        ({
            let intent = accounts.intent.data->Some_0;
            let outcome = fulfillment(accounts, output_amount_to_user, now, rederived, authority);
            &&& outcome is Err
            &&& (accounts.solver.is_signer && rederived == Some(accounts.intent.key)
                && !intent.fulfilled && accounts_match(accounts, intent) && output_amount_to_user
                > 0) ==> {
                &&& outcome == Err::<crate::accounts::Settlement, ProtocolError>(
                    ProtocolError::Custom(CustomError::IntentExpired),
                )
                &&& outcome->Err_0.spec_kind() == ErrorKind::Terms
            }
        }),
{
}

/// A permitted fulfillment moves exactly the intent's input amount from the
/// owner to the solver on the authority's word, and exactly the offered
/// amount from the solver to the owner on the solver's word; the record
/// then shows the offered amount as delivered, the calling solver, and
/// `now`, has kept its terms, and is well formed where its input amount is
/// positive, as that of every submitted record is.
pub proof fn lemma_settlement_is_exact(
    accounts: FulfillIntent,
    output_amount_to_user: u64,
    now: i64,
    rederived: Option<Address>,
    authority: Option<(Address, u8)>,
)
    requires
        fulfillment(accounts, output_amount_to_user, now, rederived, authority) is Ok,
    ensures
        ({
            let before = accounts.intent.data->Some_0;
            let s = fulfillment(accounts, output_amount_to_user, now, rederived, authority)->Ok_0;
            &&& accounts.intent.data is Some
            &&& fulfillment_permitted(accounts, output_amount_to_user, now, rederived, authority)
            &&& s.user_to_solver.amount == before.input_amount
            &&& s.user_to_solver.from == accounts.user_input_token_account.key
            &&& s.user_to_solver.to == accounts.solver_input_token_account.key
            &&& s.user_to_solver.authority == accounts.intent_authority.key
            &&& s.solver_to_user.amount == output_amount_to_user
            &&& s.solver_to_user.from == accounts.solver_output_token_account.key
            &&& s.solver_to_user.to == accounts.user_output_token_account.key
            &&& s.solver_to_user.authority == accounts.solver.key
            &&& s.intent.fulfilled
            &&& s.intent.solver == Some(accounts.solver.key)
            &&& s.intent.output_amount_fulfilled == Some(output_amount_to_user)
            &&& s.intent.fulfilled_timestamp == Some(now)
            &&& s.intent.same_terms(before)
            &&& before.input_amount > 0 ==> s.intent.wf()
            &&& s.event.output_amount_fulfilled == output_amount_to_user
            &&& s.event.input_amount == before.input_amount
            &&& s.event.solver == accounts.solver.key
        }),
{
    crate::fulfill::lemma_rejected_iff_not_permitted(
        accounts,
        output_amount_to_user,
        now,
        rederived,
        authority,
    );
}

/// A cancellation that names a slot in which nothing is stored is refused
/// with `AccountNotInitialized`, a failure of state, and changes nothing.
pub proof fn lemma_cancel_of_absent_record(
    records: Map<Address, Intent>,
    program_id: Address,
    accounts: CancelIntent,
    intent_id: u64,
)
    requires
        !records.contains_key(accounts.intent.key),
    ensures
        cancel_outcome(records, program_id, accounts, intent_id) == Err::<
            IntentCancelledEvent,
            ProtocolError,
        >(ProtocolError::Ledger(LedgerError::AccountNotInitialized)),
        ProtocolError::Ledger(LedgerError::AccountNotInitialized).spec_kind() == ErrorKind::State,
        after_cancel(records, program_id, accounts, intent_id) == records,
{
}

/// Only an open intent is cancelled, and only by its owner: a permitted
/// cancellation finds an unfulfilled record whose owner signed the call,
/// and removes that record and no other.
pub proof fn lemma_cancel_removes_open_record(
    records: Map<Address, Intent>,
    program_id: Address,
    accounts: CancelIntent,
    intent_id: u64,
)
    requires
        cancel_outcome(records, program_id, accounts, intent_id) is Ok,
    ensures
        records.contains_key(accounts.intent.key),
        !records[accounts.intent.key].fulfilled,
        records[accounts.intent.key].user == accounts.user.key,
        accounts.user.is_signer,
        after_cancel(records, program_id, accounts, intent_id) == records.remove(
            accounts.intent.key,
        ),
{
}

/// A fulfillment, permitted or refused, keeps every record in the store
/// with its owner, id, terms, creation time and tag; a record that was
/// already fulfilled, and every record in another slot than the one named,
/// stays exactly as it was.
pub proof fn lemma_fulfillment_keeps_terms(
    records: Map<Address, Intent>,
    program_id: Address,
    accounts: FulfillIntent,
    intent_id: u64,
    output_amount_to_user: u64,
    now: i64,
    key: Address,
)
    requires
        records.contains_key(key),
    ensures
        ({
            let after = after_fulfill(
                records,
                program_id,
                accounts,
                intent_id,
                output_amount_to_user,
                now,
            );
            &&& after.contains_key(key)
            &&& after[key].same_terms(records[key])
            &&& records[key].fulfilled ==> after[key] == records[key]
            &&& key != accounts.intent.key ==> after[key] == records[key]
        }),
{
}

/// The owner can always withdraw an open intent: where the store holds an
/// open record that belongs at its slot, as every record of a store does,
/// the cancellation that its owner signs with the record's id is permitted,
/// and removes the record.
pub proof fn lemma_owner_cancels_open_record(
    records: Map<Address, Intent>,
    program_id: Address,
    accounts: CancelIntent,
)
    requires
        records.contains_key(accounts.intent.key),
        records[accounts.intent.key].anchored_at(program_id, accounts.intent.key),
        !records[accounts.intent.key].fulfilled,
        accounts.user.is_signer,
        accounts.user.key == records[accounts.intent.key].user,
    ensures
        ({
            let record = records[accounts.intent.key];
            &&& cancel_outcome(records, program_id, accounts, record.intent_id) == Ok::<
                IntentCancelledEvent,
                ProtocolError,
            >(IntentCancelledEvent::of(accounts.intent.key, record))
            &&& after_cancel(records, program_id, accounts, record.intent_id) == records.remove(
                accounts.intent.key,
            )
        }),
{
}

/// A fulfillment that meets every condition succeeds: where the store holds
/// an open, unexpired record that belongs at its slot, as every record of a
/// store does, the solver signed, the accounts match the record, the offer
/// is positive, the allowance covers the input amount and the authority
/// named is the canonical one, the store marks the record fulfilled and
/// yields its settlement.
pub proof fn lemma_ready_fulfillment_succeeds(
    records: Map<Address, Intent>,
    program_id: Address,
    accounts: FulfillIntent,
    output_amount_to_user: u64,
    now: i64,
)
    requires
        records.contains_key(accounts.intent.key),
        records[accounts.intent.key].anchored_at(program_id, accounts.intent.key),
        !records[accounts.intent.key].fulfilled,
        !records[accounts.intent.key].expired_at(now),
        accounts.solver.is_signer,
        accounts_match(accounts, records[accounts.intent.key]),
        output_amount_to_user > 0,
        allowance_covers(accounts, records[accounts.intent.key]),
        authority_genuine(accounts, authority_address(program_id)),
    ensures
        ({
            let record = records[accounts.intent.key];
            let settlement = settlement_of(accounts, record, output_amount_to_user, now);
            &&& fulfill_outcome(
                records,
                program_id,
                accounts,
                record.intent_id,
                output_amount_to_user,
                now,
            ) == Ok::<crate::accounts::Settlement, ProtocolError>(settlement)
            &&& after_fulfill(
                records,
                program_id,
                accounts,
                record.intent_id,
                output_amount_to_user,
                now,
            ) == records.insert(accounts.intent.key, settlement.intent)
            &&& settlement.intent == record.filled(accounts.solver.key, output_amount_to_user, now)
        }),
{
}

/// A submission with an input amount of zero is refused, and the store that
/// it is made to keeps no record of it. Where every other check passes, the
/// failure is `InvalidInputAmount`, a failure of terms.
pub proof fn lemma_zero_amount_refused(
    records: Map<Address, Intent>,
    program_id: Address,
    accounts: SubmitIntent,
    intent_id: u64,
    input_mint: Address,
    output_mint: Address,
    expiry_ts: Option<i64>,
    category: u64,
    now: i64,
    found: Option<(Address, u8)>,
)
    ensures
        ({
            let outcome = submission(
                accounts,
                intent_id,
                input_mint,
                output_mint,
                0,
                expiry_ts,
                category,
                now,
                found,
            );
            &&& outcome is Err
            &&& (accounts.user.is_signer && accounts.intent.data is None && found is Some
                && found->Some_0.0 == accounts.intent.key && !(expiry_ts is Some
                && expiry_ts->Some_0 <= now)) ==> {
                &&& outcome == Err::<Intent, ProtocolError>(
                    ProtocolError::Custom(CustomError::InvalidInputAmount),
                )
                &&& outcome->Err_0.spec_kind() == ErrorKind::Terms
            }
        }),
        submit_outcome(
            records,
            program_id,
            accounts,
            intent_id,
            input_mint,
            output_mint,
            0,
            expiry_ts,
            category,
            now,
        ) is Err,
        after_submit(
            records,
            program_id,
            accounts,
            intent_id,
            input_mint,
            output_mint,
            0,
            expiry_ts,
            category,
            now,
        ) == records,
{
}

/// A permitted cancellation yields the notification that carries the
/// withdrawn record's owner, id and trade terms.
pub proof fn lemma_cancellation_tells_the_terms(
    records: Map<Address, Intent>,
    program_id: Address,
    accounts: CancelIntent,
    intent_id: u64,
)
    requires
        cancel_outcome(records, program_id, accounts, intent_id) is Ok,
    ensures
        ({
            let record = records[accounts.intent.key];
            let event = cancel_outcome(records, program_id, accounts, intent_id)->Ok_0;
            &&& event.intent_pda == accounts.intent.key
            &&& event.user == record.user
            &&& event.intent_id == record.intent_id
            &&& event.input_mint == record.input_mint
            &&& event.output_mint == record.output_mint
            &&& event.input_amount == record.input_amount
        }),
{
}

} // verus!
