use intent_protocol::error::{CustomError, ErrorKind, LedgerError, ProtocolError};

#[test]
fn authorization_failures() {
    assert_eq!(CustomError::Unauthorized.kind(), ErrorKind::Authorization);
    assert_eq!(CustomError::UserTokenAccountMismatch.kind(), ErrorKind::Authorization);
    assert_eq!(CustomError::SolverTokenAccountMismatch.kind(), ErrorKind::Authorization);
    assert_eq!(CustomError::DelegateNotSet.kind(), ErrorKind::Authorization);
    assert_eq!(CustomError::InsufficientDelegatedAmount.kind(), ErrorKind::Authorization);
    assert_eq!(CustomError::InvalidAuthorityPDA.kind(), ErrorKind::Authorization);
    assert_eq!(CustomError::UserAccountMismatch.kind(), ErrorKind::Authorization);
    assert_eq!(LedgerError::AccountNotSigner.kind(), ErrorKind::Authorization);
}

#[test]
fn state_failures() {
    assert_eq!(CustomError::IntentAlreadyFulfilled.kind(), ErrorKind::State);
    assert_eq!(LedgerError::AccountNotInitialized.kind(), ErrorKind::State);
    assert_eq!(LedgerError::AccountAlreadyInUse.kind(), ErrorKind::State);
}

#[test]
fn terms_failures() {
    assert_eq!(CustomError::InputMintMismatch.kind(), ErrorKind::Terms);
    assert_eq!(CustomError::OutputMintMismatch.kind(), ErrorKind::Terms);
    assert_eq!(CustomError::InvalidOutputAmount.kind(), ErrorKind::Terms);
    assert_eq!(CustomError::IntentExpired.kind(), ErrorKind::Terms);
    assert_eq!(CustomError::ExpiryInPast.kind(), ErrorKind::Terms);
    assert_eq!(CustomError::InvalidInputAmount.kind(), ErrorKind::Terms);
}

#[test]
fn integrity_failures() {
    assert_eq!(CustomError::BumpMismatch.kind(), ErrorKind::Integrity);
    assert_eq!(LedgerError::ConstraintSeeds.kind(), ErrorKind::Integrity);
}

#[test]
fn protocol_error_has_the_kind_of_what_it_wraps() {
    assert_eq!(ProtocolError::Custom(CustomError::IntentExpired).kind(), ErrorKind::Terms);
    assert_eq!(ProtocolError::Custom(CustomError::DelegateNotSet).kind(), ErrorKind::Authorization);
    assert_eq!(ProtocolError::Ledger(LedgerError::ConstraintSeeds).kind(), ErrorKind::Integrity);
    assert_eq!(ProtocolError::Ledger(LedgerError::AccountAlreadyInUse).kind(), ErrorKind::State);
}

#[test]
fn each_failure_has_its_text() {
    assert_eq!(CustomError::Unauthorized.message(), "Unauthorized: Signer is not the intent owner.");
    assert_eq!(CustomError::IntentAlreadyFulfilled.message(), "Intent has already been fulfilled.");
    assert_eq!(
        CustomError::InputMintMismatch.message(),
        "Provided token account does not match the intent's input mint."
    );
    assert_eq!(
        CustomError::OutputMintMismatch.message(),
        "Provided token account does not match the intent's output mint."
    );
    assert_eq!(
        CustomError::UserTokenAccountMismatch.message(),
        "Provided user token account owner does not match the intent creator."
    );
    assert_eq!(
        CustomError::SolverTokenAccountMismatch.message(),
        "Provided solver token account owner does not match the solver signer."
    );
    assert_eq!(
        CustomError::DelegateNotSet.message(),
        "User's input token account does not have delegate set to the program authority."
    );
    assert_eq!(
        CustomError::InsufficientDelegatedAmount.message(),
        "User's input token account has insufficient delegated amount."
    );
    assert_eq!(
        CustomError::InvalidOutputAmount.message(),
        "Output amount provided by solver must be greater than zero."
    );
    assert_eq!(CustomError::IntentExpired.message(), "Intent has expired.");
    assert_eq!(CustomError::ExpiryInPast.message(), "Expiry timestamp must be in the future.");
    assert_eq!(
        CustomError::InvalidAuthorityPDA.message(),
        "Provided authority PDA derived address is incorrect."
    );
    assert_eq!(
        CustomError::UserAccountMismatch.message(),
        "The user AccountInfo provided does not match the user stored in the intent."
    );
    assert_eq!(
        CustomError::BumpMismatch.message(),
        "Bump seed mismatch between context and derivation."
    );
    assert_eq!(
        CustomError::InvalidInputAmount.message(),
        "Input amount must be greater than zero."
    );
}

#[test]
fn crate_root_offers_the_lifecycle() {
    let refused = intent_protocol::submit_intent(
        &intent_protocol::address::Address::new([0; 32]),
        &intent_protocol::SubmitIntent {
            intent: intent_protocol::accounts::IntentAccount {
                key: intent_protocol::address::Address::new([0; 32]),
                data: None,
            },
            user: intent_protocol::accounts::Signer {
                key: intent_protocol::address::Address::new([0; 32]),
                is_signer: false,
            },
        },
        1,
        intent_protocol::address::Address::new([1; 32]),
        intent_protocol::address::Address::new([2; 32]),
        3,
        None,
        0,
        0,
    );
    assert_eq!(refused, Err(ProtocolError::Ledger(LedgerError::AccountNotSigner)));
}
