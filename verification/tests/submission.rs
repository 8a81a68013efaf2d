use intent_protocol::accounts::{IntentAccount, Signer, SubmitIntent};
use intent_protocol::address::Address;
use intent_protocol::error::{CustomError, ErrorKind, LedgerError, ProtocolError};
use intent_protocol::intent::{Intent, IntentSubmittedEvent};
use intent_protocol::submit::{open_intent, submit_intent};

const PROGRAM: [u8; 32] = [
    223, 52, 96, 121, 177, 213, 197, 109, 103, 160, 217, 202, 142, 161, 158, 8, 42, 15, 35, 97, 30,
    124, 18, 3, 163, 120, 170, 165, 244, 150, 218, 65,
];
const INTENT_ONE: [u8; 32] = [
    85, 87, 74, 187, 140, 118, 136, 74, 0, 151, 240, 23, 242, 48, 150, 235, 241, 207, 37, 178, 253,
    76, 37, 53, 14, 35, 30, 2, 186, 73, 64, 184,
];

fn addr(bytes: [u8; 32]) -> Address {
    Address::new(bytes)
}

fn owner() -> Address {
    addr([1; 32])
}

fn mint_a() -> Address {
    addr([10; 32])
}

fn mint_b() -> Address {
    addr([11; 32])
}

fn free_slot() -> SubmitIntent {
    SubmitIntent {
        intent: IntentAccount { key: addr(INTENT_ONE), data: None },
        user: Signer { key: owner(), is_signer: true },
    }
}

fn expected_record(expiry_ts: Option<i64>, now: i64) -> Intent {
    Intent {
        user: owner(),
        intent_id: 1,
        input_mint: mint_a(),
        output_mint: mint_b(),
        input_amount: 100,
        category: 7,
        creation_ts: now,
        expiry_ts,
        fulfilled: false,
        solver: None,
        output_amount_fulfilled: None,
        fulfilled_timestamp: None,
        bump: 254,
    }
}

#[test]
fn submission_stores_the_submitted_terms() {
    let r = submit_intent(&addr(PROGRAM), &free_slot(), 1, mint_a(), mint_b(), 100, None, 7, 1000);
    let (intent, event) = r.unwrap();
    assert_eq!(intent, expected_record(None, 1000));
    assert!(!intent.fulfilled);
    assert_eq!(
        event,
        IntentSubmittedEvent {
            intent_pda: addr(INTENT_ONE),
            user: owner(),
            intent_id: 1,
            input_mint: mint_a(),
            output_mint: mint_b(),
            input_amount: 100,
            expiry_ts: None,
            category: 7,
            creation_ts: 1000,
        }
    );
}

#[test]
fn submission_with_future_expiry_is_accepted() {
    let r =
        submit_intent(&addr(PROGRAM), &free_slot(), 1, mint_a(), mint_b(), 100, Some(1001), 7, 1000);
    let (intent, event) = r.unwrap();
    assert_eq!(intent, expected_record(Some(1001), 1000));
    assert_eq!(event.expiry_ts, Some(1001));
}

#[test]
fn submission_with_expiry_now_is_refused() {
    let r =
        submit_intent(&addr(PROGRAM), &free_slot(), 1, mint_a(), mint_b(), 100, Some(1000), 7, 1000);
    assert_eq!(r, Err(ProtocolError::Custom(CustomError::ExpiryInPast)));
    assert_eq!(r.unwrap_err().kind(), ErrorKind::Terms);
}

#[test]
fn submission_with_past_expiry_is_refused() {
    let r =
        submit_intent(&addr(PROGRAM), &free_slot(), 1, mint_a(), mint_b(), 100, Some(999), 7, 1000);
    assert_eq!(r, Err(ProtocolError::Custom(CustomError::ExpiryInPast)));
    let r = submit_intent(
        &addr(PROGRAM),
        &free_slot(),
        1,
        mint_a(),
        mint_b(),
        100,
        Some(i64::MIN),
        7,
        i64::MIN,
    );
    assert_eq!(r, Err(ProtocolError::Custom(CustomError::ExpiryInPast)));
}

#[test]
fn submission_at_negative_time_compares_signed() {
    let r =
        submit_intent(&addr(PROGRAM), &free_slot(), 1, mint_a(), mint_b(), 100, Some(-5), 7, -6);
    assert_eq!(r.unwrap().0, expected_record(Some(-5), -6));
}

#[test]
fn unsigned_submission_is_refused() {
    let mut accounts = free_slot();
    accounts.user.is_signer = false;
    let r = submit_intent(&addr(PROGRAM), &accounts, 1, mint_a(), mint_b(), 100, None, 7, 1000);
    assert_eq!(r, Err(ProtocolError::Ledger(LedgerError::AccountNotSigner)));
    assert_eq!(r.unwrap_err().kind(), ErrorKind::Authorization);
}

#[test]
fn submission_to_a_foreign_slot_is_refused() {
    let mut accounts = free_slot();
    accounts.intent.key = addr([77; 32]);
    let r = submit_intent(&addr(PROGRAM), &accounts, 1, mint_a(), mint_b(), 100, None, 7, 1000);
    assert_eq!(r, Err(ProtocolError::Ledger(LedgerError::ConstraintSeeds)));
    assert_eq!(r.unwrap_err().kind(), ErrorKind::Integrity);
    // The slot of id 1 is not the slot of id 2.
    let r = submit_intent(&addr(PROGRAM), &free_slot(), 2, mint_a(), mint_b(), 100, None, 7, 1000);
    assert_eq!(r, Err(ProtocolError::Ledger(LedgerError::ConstraintSeeds)));
}

#[test]
fn submission_to_an_occupied_slot_is_refused() {
    let mut accounts = free_slot();
    accounts.intent.data = Some(expected_record(None, 5));
    let r = submit_intent(&addr(PROGRAM), &accounts, 1, mint_b(), mint_a(), 9, None, 0, 1000);
    assert_eq!(r, Err(ProtocolError::Ledger(LedgerError::AccountAlreadyInUse)));
    assert_eq!(r.unwrap_err().kind(), ErrorKind::State);
}

#[test]
fn submission_checks_come_in_order() {
    // Unsigned, foreign slot, occupied, past expiry: the signature comes first.
    let mut accounts = free_slot();
    accounts.user.is_signer = false;
    accounts.intent.key = addr([77; 32]);
    accounts.intent.data = Some(expected_record(None, 5));
    let r = submit_intent(&addr(PROGRAM), &accounts, 1, mint_a(), mint_b(), 100, Some(1), 7, 1000);
    assert_eq!(r, Err(ProtocolError::Ledger(LedgerError::AccountNotSigner)));
    accounts.user.is_signer = true;
    let r = submit_intent(&addr(PROGRAM), &accounts, 1, mint_a(), mint_b(), 100, Some(1), 7, 1000);
    assert_eq!(r, Err(ProtocolError::Ledger(LedgerError::ConstraintSeeds)));
    accounts.intent.key = addr(INTENT_ONE);
    let r = submit_intent(&addr(PROGRAM), &accounts, 1, mint_a(), mint_b(), 100, Some(1), 7, 1000);
    assert_eq!(r, Err(ProtocolError::Ledger(LedgerError::AccountAlreadyInUse)));
    accounts.intent.data = None;
    let r = submit_intent(&addr(PROGRAM), &accounts, 1, mint_a(), mint_b(), 100, Some(1), 7, 1000);
    assert_eq!(r, Err(ProtocolError::Custom(CustomError::ExpiryInPast)));
}

#[test]
fn open_intent_takes_the_tag_it_is_given() {
    let found = Some((addr(INTENT_ONE), 9));
    let r = open_intent(&free_slot(), 1, mint_a(), mint_b(), 100, None, 7, 1000, found);
    let mut expected = expected_record(None, 1000);
    expected.bump = 9;
    assert_eq!(r.unwrap().0, expected);
}

#[test]
fn open_intent_without_an_address_is_refused() {
    let r = open_intent(&free_slot(), 1, mint_a(), mint_b(), 100, None, 7, 1000, None);
    assert_eq!(r, Err(ProtocolError::Ledger(LedgerError::ConstraintSeeds)));
    let found = Some((addr([5; 32]), 254));
    let r = open_intent(&free_slot(), 1, mint_a(), mint_b(), 100, None, 7, 1000, found);
    assert_eq!(r, Err(ProtocolError::Ledger(LedgerError::ConstraintSeeds)));
}

#[test]
fn submission_accepts_the_largest_amounts() {
    let r = submit_intent(
        &addr(PROGRAM),
        &free_slot(),
        1,
        mint_a(),
        mint_b(),
        u64::MAX,
        Some(i64::MAX),
        u64::MAX,
        i64::MAX - 1,
    );
    let (intent, _) = r.unwrap();
    assert_eq!(intent.input_amount, u64::MAX);
    assert_eq!(intent.category, u64::MAX);
    assert_eq!(intent.expiry_ts, Some(i64::MAX));
    assert_eq!(intent.creation_ts, i64::MAX - 1);
}

#[test]
fn submission_of_amount_zero_is_refused() {
    let r = submit_intent(&addr(PROGRAM), &free_slot(), 1, mint_a(), mint_b(), 0, None, 7, 1000);
    assert_eq!(r, Err(ProtocolError::Custom(CustomError::InvalidInputAmount)));
    assert_eq!(r.unwrap_err().kind(), ErrorKind::Terms);
    let r =
        submit_intent(&addr(PROGRAM), &free_slot(), 1, mint_a(), mint_b(), 0, Some(2000), 7, 1000);
    assert_eq!(r, Err(ProtocolError::Custom(CustomError::InvalidInputAmount)));
    let found = Some((addr(INTENT_ONE), 254));
    let r = open_intent(&free_slot(), 1, mint_a(), mint_b(), 0, None, 7, 1000, found);
    assert_eq!(r, Err(ProtocolError::Custom(CustomError::InvalidInputAmount)));
}

#[test]
fn submission_of_amount_one_is_accepted() {
    let r = submit_intent(&addr(PROGRAM), &free_slot(), 1, mint_a(), mint_b(), 1, None, 7, 1000);
    let (intent, event) = r.unwrap();
    assert_eq!(intent.input_amount, 1);
    assert_eq!(event.input_amount, 1);
}

#[test]
fn amount_is_checked_after_the_expiry() {
    let r =
        submit_intent(&addr(PROGRAM), &free_slot(), 1, mint_a(), mint_b(), 0, Some(1000), 7, 1000);
    assert_eq!(r, Err(ProtocolError::Custom(CustomError::ExpiryInPast)));
    let mut accounts = free_slot();
    accounts.intent.data = Some(expected_record(None, 5));
    let r = submit_intent(&addr(PROGRAM), &accounts, 1, mint_a(), mint_b(), 0, None, 7, 1000);
    assert_eq!(r, Err(ProtocolError::Ledger(LedgerError::AccountAlreadyInUse)));
    let mut accounts = free_slot();
    accounts.user.is_signer = false;
    let r = submit_intent(&addr(PROGRAM), &accounts, 1, mint_a(), mint_b(), 0, None, 7, 1000);
    assert_eq!(r, Err(ProtocolError::Ledger(LedgerError::AccountNotSigner)));
}
