//! Failure values of the lifecycle operations, and the four kinds they fall
//! into.

use vstd::prelude::*;

verus! {

/// A check of the protocol itself that failed.
#[derive(Clone, Copy, Debug, PartialEq, Eq, Structural)]
pub enum CustomError {
    /// The signer is not the intent's owner.
    Unauthorized,
    /// The intent has already been fulfilled.
    IntentAlreadyFulfilled,
    /// A supplied asset account does not hold the intent's input asset.
    InputMintMismatch,
    /// A supplied asset account does not hold the intent's output asset.
    OutputMintMismatch,
    /// A user-side asset account is not owned by the intent's owner.
    UserTokenAccountMismatch,
    /// A solver-side asset account is not owned by the calling solver.
    SolverTokenAccountMismatch,
    /// The owner's input account has not delegated to the protocol's authority.
    DelegateNotSet,
    /// The delegated allowance is below the intent's input amount.
    InsufficientDelegatedAmount,
    /// The solver offered an output amount of zero.
    InvalidOutputAmount,
    /// The intent's expiry time has been reached.
    IntentExpired,
    /// The expiry time given at submission is not in the future.
    ExpiryInPast,
    /// The authority named in the call is not the one derived from the label.
    InvalidAuthorityPDA,
    /// The owner named in the call is not the owner stored in the intent.
    UserAccountMismatch,
    /// The authority's derivation tag is not the canonical one.
    BumpMismatch,
    /// The input amount given at submission is zero.
    InvalidInputAmount,
}

/// A failure that the storage and account layer reports.
#[derive(Clone, Copy, Debug, PartialEq, Eq, Structural)]
pub enum LedgerError {
    /// The identity that must authorize the call did not sign it.
    AccountNotSigner,
    /// The record's address is not the one derived from its seeds.
    ConstraintSeeds,
    /// No record is stored at the address.
    AccountNotInitialized,
    /// A record is already stored at the address.
    AccountAlreadyInUse,
}

/// Why a lifecycle operation was refused.
#[derive(Clone, Copy, Debug, PartialEq, Eq, Structural)]
pub enum ProtocolError {
    Custom(CustomError),
    Ledger(LedgerError),
}

/// The four kinds of failure.
#[derive(Clone, Copy, Debug, PartialEq, Eq, Structural)]
pub enum ErrorKind {
    /// The caller, an account's owner, the allowance or the authority is wrong.
    Authorization,
    /// The record is not in the state that the operation needs.
    State,
    /// The trade terms, the time or the offered amount is wrong.
    Terms,
    /// A derivation tag does not match: the record was substituted or corrupted.
    Integrity,
}

impl CustomError {
    /// The text that tells a caller what went wrong.
    pub open spec fn spec_message(self) -> Seq<char> {
        match self {
            CustomError::Unauthorized => "Unauthorized: Signer is not the intent owner."@,
            CustomError::IntentAlreadyFulfilled => "Intent has already been fulfilled."@,
            CustomError::InputMintMismatch =>
                "Provided token account does not match the intent's input mint."@,
            CustomError::OutputMintMismatch =>
                "Provided token account does not match the intent's output mint."@,
            CustomError::UserTokenAccountMismatch =>
                "Provided user token account owner does not match the intent creator."@,
            CustomError::SolverTokenAccountMismatch =>
                "Provided solver token account owner does not match the solver signer."@,
            CustomError::DelegateNotSet =>
                "User's input token account does not have delegate set to the program authority."@,
            CustomError::InsufficientDelegatedAmount =>
                "User's input token account has insufficient delegated amount."@,
            CustomError::InvalidOutputAmount =>
                "Output amount provided by solver must be greater than zero."@,
            CustomError::IntentExpired => "Intent has expired."@,
            CustomError::ExpiryInPast => "Expiry timestamp must be in the future."@,
            CustomError::InvalidAuthorityPDA =>
                "Provided authority PDA derived address is incorrect."@,
            CustomError::UserAccountMismatch =>
                "The user AccountInfo provided does not match the user stored in the intent."@,
            CustomError::BumpMismatch => "Bump seed mismatch between context and derivation."@,
            CustomError::InvalidInputAmount => "Input amount must be greater than zero."@,
        }
    }

    /// The text that tells a caller what went wrong.
    pub fn message(self) -> (text: &'static str)
        ensures
            text@ == self.spec_message(),
    {
        match self {
            CustomError::Unauthorized => "Unauthorized: Signer is not the intent owner.",
            CustomError::IntentAlreadyFulfilled => "Intent has already been fulfilled.",
            CustomError::InputMintMismatch =>
                "Provided token account does not match the intent's input mint.",
            CustomError::OutputMintMismatch =>
                "Provided token account does not match the intent's output mint.",
            CustomError::UserTokenAccountMismatch =>
                "Provided user token account owner does not match the intent creator.",
            CustomError::SolverTokenAccountMismatch =>
                "Provided solver token account owner does not match the solver signer.",
            CustomError::DelegateNotSet =>
                "User's input token account does not have delegate set to the program authority.",
            CustomError::InsufficientDelegatedAmount =>
                "User's input token account has insufficient delegated amount.",
            CustomError::InvalidOutputAmount =>
                "Output amount provided by solver must be greater than zero.",
            CustomError::IntentExpired => "Intent has expired.",
            CustomError::ExpiryInPast => "Expiry timestamp must be in the future.",
            CustomError::InvalidAuthorityPDA =>
                "Provided authority PDA derived address is incorrect.",
            CustomError::UserAccountMismatch =>
                "The user AccountInfo provided does not match the user stored in the intent.",
            CustomError::BumpMismatch => "Bump seed mismatch between context and derivation.",
            CustomError::InvalidInputAmount => "Input amount must be greater than zero.",
        }
    }

    pub open spec fn spec_kind(self) -> ErrorKind {
        match self {
            CustomError::Unauthorized => ErrorKind::Authorization,
            CustomError::IntentAlreadyFulfilled => ErrorKind::State,
            CustomError::InputMintMismatch => ErrorKind::Terms,
            CustomError::OutputMintMismatch => ErrorKind::Terms,
            CustomError::UserTokenAccountMismatch => ErrorKind::Authorization,
            CustomError::SolverTokenAccountMismatch => ErrorKind::Authorization,
            CustomError::DelegateNotSet => ErrorKind::Authorization,
            CustomError::InsufficientDelegatedAmount => ErrorKind::Authorization,
            CustomError::InvalidOutputAmount => ErrorKind::Terms,
            CustomError::IntentExpired => ErrorKind::Terms,
            CustomError::ExpiryInPast => ErrorKind::Terms,
            CustomError::InvalidAuthorityPDA => ErrorKind::Authorization,
            CustomError::UserAccountMismatch => ErrorKind::Authorization,
            CustomError::BumpMismatch => ErrorKind::Integrity,
            CustomError::InvalidInputAmount => ErrorKind::Terms,
        }
    }

    /// The kind of this failure.
    #[verifier::when_used_as_spec(spec_kind)]
    pub fn kind(self) -> (k: ErrorKind)
        ensures
            k == self.spec_kind(),
    {
        match self {
            CustomError::IntentAlreadyFulfilled => ErrorKind::State,
            CustomError::InputMintMismatch
            | CustomError::OutputMintMismatch
            | CustomError::InvalidOutputAmount
            | CustomError::IntentExpired
            | CustomError::ExpiryInPast
            | CustomError::InvalidInputAmount => ErrorKind::Terms,
            CustomError::BumpMismatch => ErrorKind::Integrity,
            _ => ErrorKind::Authorization,
        }
    }
}

impl LedgerError {
    pub open spec fn spec_kind(self) -> ErrorKind {
        match self {
            LedgerError::AccountNotSigner => ErrorKind::Authorization,
            LedgerError::ConstraintSeeds => ErrorKind::Integrity,
            LedgerError::AccountNotInitialized => ErrorKind::State,
            LedgerError::AccountAlreadyInUse => ErrorKind::State,
        }
    }

    /// The kind of this failure.
    #[verifier::when_used_as_spec(spec_kind)]
    pub fn kind(self) -> (k: ErrorKind)
        ensures
            k == self.spec_kind(),
    {
        match self {
            LedgerError::AccountNotSigner => ErrorKind::Authorization,
            LedgerError::ConstraintSeeds => ErrorKind::Integrity,
            _ => ErrorKind::State,
        }
    }
}

impl ProtocolError {
    pub open spec fn spec_kind(self) -> ErrorKind {
        match self {
            ProtocolError::Custom(e) => e.spec_kind(),
            ProtocolError::Ledger(e) => e.spec_kind(),
        }
    }

    /// The kind of this failure.
    #[verifier::when_used_as_spec(spec_kind)]
    pub fn kind(self) -> (k: ErrorKind)
        ensures
            k == self.spec_kind(),
    {
        match self {
            ProtocolError::Custom(e) => e.kind(),
            ProtocolError::Ledger(e) => e.kind(),
        }
    }
}

} // verus!
