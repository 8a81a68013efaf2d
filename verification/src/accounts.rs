//! What a call names: the record's slot, the parties, and the asset accounts,
//! each as the plain values that the checks read.

use crate::address::Address;
use crate::intent::Intent;
use vstd::prelude::*;

verus! {

/// An identity together with whether it authorized the call.
#[derive(Clone, Copy, Debug, PartialEq, Eq)]
pub struct Signer {
    pub key: Address,
    pub is_signer: bool,
}

/// The slot at `key` and the record stored there, if any.
#[derive(Clone, Copy, Debug, PartialEq, Eq)]
pub struct IntentAccount {
    pub key: Address,
    pub data: Option<Intent>,
}

/// An asset account as the ledger shows it.
#[derive(Clone, Copy, Debug, PartialEq, Eq)]
pub struct TokenAccount {
    /// The account's own address.
    pub key: Address,
    /// The asset type held.
    pub mint: Address,
    /// Who owns the account.
    pub owner: Address,
    /// The balance.
    pub amount: u64,
    /// Who may spend from the account on the owner's behalf, if anyone.
    pub delegate: Option<Address>,
    /// How much the delegate may still spend.
    pub delegated_amount: u64,
}

/// The protocol's authority as a call names it: an address and the
/// derivation tag that vouches for it.
#[derive(Clone, Copy, Debug, PartialEq, Eq)]
pub struct DelegatedAuthority {
    pub key: Address,
    pub bump: u8,
}

/// What a submission names.
#[derive(Clone, Copy, Debug, PartialEq, Eq)]
pub struct SubmitIntent {
    /// The slot in which the record is to be created.
    pub intent: IntentAccount,
    /// The owner of the new intent.
    pub user: Signer,
}

/// What a cancellation names.
#[derive(Clone, Copy, Debug, PartialEq, Eq)]
pub struct CancelIntent {
    /// The record to withdraw.
    pub intent: IntentAccount,
    /// The owner, to whom the storage deposit returns.
    pub user: Signer,
}

/// What a fulfillment names.
#[derive(Clone, Copy, Debug, PartialEq, Eq)]
pub struct FulfillIntent {
    /// The record to fulfill.
    pub intent: IntentAccount,
    /// The intent's owner.
    pub user: Address,
    /// The solver, who carries the trade out.
    pub solver: Signer,
    /// The authority that moves the owner's input asset.
    pub intent_authority: DelegatedAuthority,
    /// The owner's account of the input asset.
    pub user_input_token_account: TokenAccount,
    /// The owner's account of the output asset.
    pub user_output_token_account: TokenAccount,
    /// The solver's account of the input asset.
    pub solver_input_token_account: TokenAccount,
    /// The solver's account of the output asset.
    pub solver_output_token_account: TokenAccount,
}

/// One leg of a settlement: `amount` moves from `from` to `to`, on the word
/// of `authority`.
#[derive(Clone, Copy, Debug, PartialEq, Eq)]
pub struct Transfer {
    pub from: Address,
    pub to: Address,
    pub authority: Address,
    pub amount: u64,
}

/// A fulfillment that passed every check: the two legs to execute, the
/// record as it stands once both have executed, and the notification. The
/// three belong to one indivisible unit.
#[derive(Clone, Copy, Debug, PartialEq, Eq)]
pub struct Settlement {
    /// The input asset, from the owner to the solver, moved by the authority
    /// under the owner's allowance.
    pub user_to_solver: Transfer,
    /// The derivation tag with which the authority signs the first leg.
    pub authority_bump: u8,
    /// The output asset, from the solver to the owner, moved by the solver.
    pub solver_to_user: Transfer,
    /// The fulfilled record.
    pub intent: Intent,
    /// The notification of the fulfillment.
    pub event: crate::intent::IntentFulfilledEvent,
}

} // verus!
