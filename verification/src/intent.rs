//! The intent record and the notifications that tell of its life.

use crate::address::Address;
use crate::pda::intent_address_with;
use vstd::prelude::*;

verus! {

/// A user's declared trade: `input_amount` of `input_mint` is offered for
/// some amount of `output_mint`. The trade terms never change; the lifecycle
/// fields are written once, when the intent is fulfilled.
#[derive(Clone, Copy, Debug, PartialEq, Eq)]
pub struct Intent {
    /// The owner, who created the intent.
    pub user: Address,
    /// The owner's id for this intent.
    pub intent_id: u64,
    /// The asset the owner gives.
    pub input_mint: Address,
    /// The asset the owner wants.
    pub output_mint: Address,
    /// How much of the input asset the owner gives.
    pub input_amount: u64,
    /// A tag without meaning to the protocol.
    pub category: u64,
    /// When the intent was created.
    pub creation_ts: i64,
    /// The time from which the intent can no longer be fulfilled, if any.
    pub expiry_ts: Option<i64>,
    /// Whether the intent has been fulfilled.
    pub fulfilled: bool,
    /// The solver that fulfilled the intent.
    pub solver: Option<Address>,
    /// How much of the output asset the owner received.
    pub output_amount_fulfilled: Option<u64>,
    /// When the intent was fulfilled.
    pub fulfilled_timestamp: Option<i64>,
    /// The derivation tag of the record's address.
    pub bump: u8,
}

impl Intent {
    /// The input amount is positive, and the lifecycle fields are all absent
    /// while the intent is open, and all present once it is fulfilled.
    pub open spec fn wf(self) -> bool {
        &&& self.input_amount > 0
        &&& self.fulfilled == self.solver.is_some()
        &&& self.fulfilled == self.output_amount_fulfilled.is_some()
        &&& self.fulfilled == self.fulfilled_timestamp.is_some()
    }

    /// Whether `other` has the same owner, id and trade terms, and the same
    /// creation time and derivation tag.
    pub open spec fn same_terms(self, other: Intent) -> bool {
        &&& self.user == other.user
        &&& self.intent_id == other.intent_id
        &&& self.input_mint == other.input_mint
        &&& self.output_mint == other.output_mint
        &&& self.input_amount == other.input_amount
        &&& self.category == other.category
        &&& self.creation_ts == other.creation_ts
        &&& self.expiry_ts == other.expiry_ts
        &&& self.bump == other.bump
    }

    /// The record as it is right after creation.
    pub open spec fn created(
        user: Address,
        intent_id: u64,
        input_mint: Address,
        output_mint: Address,
        input_amount: u64,
        expiry_ts: Option<i64>,
        category: u64,
        now: i64,
        bump: u8,
    ) -> Intent {
        Intent {
            user,
            intent_id,
            input_mint,
            output_mint,
            input_amount,
            category,
            creation_ts: now,
            expiry_ts,
            fulfilled: false,
            solver: None,
            output_amount_fulfilled: None,
            fulfilled_timestamp: None,
            bump,
        }
    }

    /// The record after `solver` delivered `output_amount` at time `now`.
    pub open spec fn filled(self, solver: Address, output_amount: u64, now: i64) -> Intent {
        Intent {
            fulfilled: true,
            solver: Some(solver),
            output_amount_fulfilled: Some(output_amount),
            fulfilled_timestamp: Some(now),
            ..self
        }
    }

    /// The record belongs at `key` in the deployment `program_id`: it is well
    /// formed, and `key` is the address that its owner, its id and its tag
    /// give.
    pub open spec fn anchored_at(self, program_id: Address, key: Address) -> bool {
        &&& self.wf()
        &&& intent_address_with(program_id, self.user, self.intent_id, self.bump) == Some(key)
    }

    /// Whether the intent can no longer be fulfilled at time `now`.
    pub open spec fn expired_at(self, now: i64) -> bool {
        self.expiry_ts matches Some(expiry) && now >= expiry
    }
}

/// Tells that an intent was created.
#[derive(Clone, Copy, Debug, PartialEq, Eq)]
pub struct IntentSubmittedEvent {
    pub intent_pda: Address,
    pub user: Address,
    pub intent_id: u64,
    pub input_mint: Address,
    pub output_mint: Address,
    pub input_amount: u64,
    pub expiry_ts: Option<i64>,
    pub category: u64,
    pub creation_ts: i64,
}

/// Tells that an intent was withdrawn, and what its terms were.
#[derive(Clone, Copy, Debug, PartialEq, Eq)]
pub struct IntentCancelledEvent {
    pub intent_pda: Address,
    pub user: Address,
    pub intent_id: u64,
    pub input_mint: Address,
    pub output_mint: Address,
    pub input_amount: u64,
}

/// Tells that an intent was fulfilled.
#[derive(Clone, Copy, Debug, PartialEq, Eq)]
pub struct IntentFulfilledEvent {
    pub intent_pda: Address,
    pub user: Address,
    pub intent_id: u64,
    pub solver: Address,
    pub input_mint: Address,
    pub output_mint: Address,
    pub input_amount: u64,
    pub output_amount_fulfilled: u64,
    pub fulfilled_timestamp: i64,
    pub category: u64,
}

impl IntentSubmittedEvent {
    /// The notification for the record `intent` created at `intent_pda`.
    pub open spec fn of(intent_pda: Address, intent: Intent) -> IntentSubmittedEvent {
        IntentSubmittedEvent {
            intent_pda,
            user: intent.user,
            intent_id: intent.intent_id,
            input_mint: intent.input_mint,
            output_mint: intent.output_mint,
            input_amount: intent.input_amount,
            expiry_ts: intent.expiry_ts,
            category: intent.category,
            creation_ts: intent.creation_ts,
        }
    }
}

impl IntentCancelledEvent {
    /// The notification for the record `intent` withdrawn from `intent_pda`.
    pub open spec fn of(intent_pda: Address, intent: Intent) -> IntentCancelledEvent {
        IntentCancelledEvent {
            intent_pda,
            user: intent.user,
            intent_id: intent.intent_id,
            input_mint: intent.input_mint,
            output_mint: intent.output_mint,
            input_amount: intent.input_amount,
        }
    }
}

impl IntentFulfilledEvent {
    /// The notification for the record at `intent_pda`, which was `intent`
    /// before `solver` delivered `output_amount` at time `now`.
    pub open spec fn of(
        intent_pda: Address,
        intent: Intent,
        solver: Address,
        output_amount: u64,
        now: i64,
    ) -> IntentFulfilledEvent {
        IntentFulfilledEvent {
            intent_pda,
            user: intent.user,
            intent_id: intent.intent_id,
            solver,
            input_mint: intent.input_mint,
            output_mint: intent.output_mint,
            input_amount: intent.input_amount,
            output_amount_fulfilled: output_amount,
            fulfilled_timestamp: now,
            category: intent.category,
        }
    }
}

} // verus!
