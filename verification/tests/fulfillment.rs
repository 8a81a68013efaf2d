use intent_protocol::accounts::{
    DelegatedAuthority, FulfillIntent, IntentAccount, Settlement, Signer, TokenAccount, Transfer,
};
use intent_protocol::address::Address;
use intent_protocol::error::{CustomError, ErrorKind, LedgerError, ProtocolError};
use intent_protocol::fulfill::{fulfill_intent, settle_intent};
use intent_protocol::intent::{Intent, IntentFulfilledEvent};

const PROGRAM: [u8; 32] = [
    223, 52, 96, 121, 177, 213, 197, 109, 103, 160, 217, 202, 142, 161, 158, 8, 42, 15, 35, 97, 30,
    124, 18, 3, 163, 120, 170, 165, 244, 150, 218, 65,
];
const AUTHORITY: [u8; 32] = [
    38, 21, 224, 91, 154, 245, 26, 132, 0, 208, 95, 143, 15, 179, 232, 179, 136, 61, 160, 4, 38,
    208, 114, 130, 87, 110, 208, 127, 147, 253, 127, 239,
];
const INTENT_ONE: [u8; 32] = [
    85, 87, 74, 187, 140, 118, 136, 74, 0, 151, 240, 23, 242, 48, 150, 235, 241, 207, 37, 178, 253,
    76, 37, 53, 14, 35, 30, 2, 186, 73, 64, 184,
];

fn addr(bytes: [u8; 32]) -> Address {
    Address::new(bytes)
}

fn owner() -> Address {
    addr([1; 32])
}

fn solver() -> Address {
    addr([2; 32])
}

fn mint_a() -> Address {
    addr([10; 32])
}

fn mint_b() -> Address {
    addr([11; 32])
}

fn record() -> Intent {
    Intent {
        user: owner(),
        intent_id: 1,
        input_mint: mint_a(),
        output_mint: mint_b(),
        input_amount: 100,
        category: 7,
        creation_ts: 1000,
        expiry_ts: None,
        fulfilled: false,
        solver: None,
        output_amount_fulfilled: None,
        fulfilled_timestamp: None,
        bump: 254,
    }
}

fn token(key: u8, mint: Address, owner: Address, amount: u64) -> TokenAccount {
    TokenAccount { key: addr([key; 32]), mint, owner, amount, delegate: None, delegated_amount: 0 }
}

fn ready() -> FulfillIntent {
    let mut user_input = token(21, mint_a(), owner(), 500);
    user_input.delegate = Some(addr(AUTHORITY));
    user_input.delegated_amount = 100;
    FulfillIntent {
        intent: IntentAccount { key: addr(INTENT_ONE), data: Some(record()) },
        user: owner(),
        solver: Signer { key: solver(), is_signer: true },
        intent_authority: DelegatedAuthority { key: addr(AUTHORITY), bump: 253 },
        user_input_token_account: user_input,
        user_output_token_account: token(22, mint_b(), owner(), 0),
        solver_input_token_account: token(23, mint_a(), solver(), 0),
        solver_output_token_account: token(24, mint_b(), solver(), 1000),
    }
}

fn fulfill(accounts: &FulfillIntent) -> Result<Settlement, ProtocolError> {
    fulfill_intent(&addr(PROGRAM), accounts, 1, 250, 1500)
}

fn custom(e: CustomError) -> Result<Settlement, ProtocolError> {
    Err(ProtocolError::Custom(e))
}

#[test]
fn fulfillment_yields_both_legs_and_the_fulfilled_record() {
    let s = fulfill(&ready()).unwrap();
    assert_eq!(
        s.user_to_solver,
        Transfer {
            from: addr([21; 32]),
            to: addr([23; 32]),
            authority: addr(AUTHORITY),
            amount: 100
        }
    );
    assert_eq!(s.authority_bump, 253);
    assert_eq!(
        s.solver_to_user,
        Transfer { from: addr([24; 32]), to: addr([22; 32]), authority: solver(), amount: 250 }
    );
    let mut done = record();
    done.fulfilled = true;
    done.solver = Some(solver());
    done.output_amount_fulfilled = Some(250);
    done.fulfilled_timestamp = Some(1500);
    assert_eq!(s.intent, done);
    assert_eq!(
        s.event,
        IntentFulfilledEvent {
            intent_pda: addr(INTENT_ONE),
            user: owner(),
            intent_id: 1,
            solver: solver(),
            input_mint: mint_a(),
            output_mint: mint_b(),
            input_amount: 100,
            output_amount_fulfilled: 250,
            fulfilled_timestamp: 1500,
            category: 7,
        }
    );
}

#[test]
fn fulfilled_record_is_never_fulfilled_again() {
    let mut accounts = ready();
    let mut done = record();
    done.fulfilled = true;
    done.solver = Some(solver());
    done.output_amount_fulfilled = Some(250);
    done.fulfilled_timestamp = Some(1500);
    accounts.intent.data = Some(done);
    assert_eq!(fulfill(&accounts), custom(CustomError::IntentAlreadyFulfilled));
    assert_eq!(fulfill(&accounts).unwrap_err().kind(), ErrorKind::State);
    // Whatever else is offered.
    assert!(fulfill_intent(&addr(PROGRAM), &accounts, 1, u64::MAX, 0).is_err());
    assert!(fulfill_intent(&addr(PROGRAM), &accounts, 9, 1, i64::MAX).is_err());
    accounts.user_input_token_account.delegated_amount = u64::MAX;
    assert!(fulfill(&accounts).is_err());
}

#[test]
fn allowance_of_99_is_refused_and_100_is_enough() {
    let mut accounts = ready();
    accounts.user_input_token_account.delegated_amount = 99;
    assert_eq!(fulfill(&accounts), custom(CustomError::InsufficientDelegatedAmount));
    assert_eq!(fulfill(&accounts).unwrap_err().kind(), ErrorKind::Authorization);
    accounts.user_input_token_account.delegated_amount = 100;
    assert!(fulfill(&accounts).is_ok());
    accounts.user_input_token_account.delegated_amount = 101;
    assert_eq!(fulfill(&accounts).unwrap().user_to_solver.amount, 100);
}

#[test]
fn missing_delegate_is_refused() {
    let mut accounts = ready();
    accounts.user_input_token_account.delegate = None;
    assert_eq!(fulfill(&accounts), custom(CustomError::DelegateNotSet));
    accounts.user_input_token_account.delegate = Some(solver());
    assert_eq!(fulfill(&accounts), custom(CustomError::DelegateNotSet));
    assert_eq!(fulfill(&accounts).unwrap_err().kind(), ErrorKind::Authorization);
}

#[test]
fn expired_intent_is_refused() {
    let mut accounts = ready();
    let mut timed = record();
    timed.expiry_ts = Some(1500);
    accounts.intent.data = Some(timed);
    // At the expiry time itself, and after it.
    assert_eq!(fulfill(&accounts), custom(CustomError::IntentExpired));
    assert_eq!(
        fulfill_intent(&addr(PROGRAM), &accounts, 1, 250, 1501),
        custom(CustomError::IntentExpired)
    );
    assert_eq!(fulfill(&accounts).unwrap_err().kind(), ErrorKind::Terms);
    // Even with an allowance beyond need.
    accounts.user_input_token_account.delegated_amount = u64::MAX;
    assert_eq!(fulfill(&accounts), custom(CustomError::IntentExpired));
    // One tick before, it passes.
    let s = fulfill_intent(&addr(PROGRAM), &accounts, 1, 250, 1499).unwrap();
    assert_eq!(s.intent.fulfilled_timestamp, Some(1499));
}

#[test]
fn zero_output_is_refused() {
    assert_eq!(
        fulfill_intent(&addr(PROGRAM), &ready(), 1, 0, 1500),
        custom(CustomError::InvalidOutputAmount)
    );
    let s = fulfill_intent(&addr(PROGRAM), &ready(), 1, 1, 1500).unwrap();
    assert_eq!(s.solver_to_user.amount, 1);
    assert_eq!(s.intent.output_amount_fulfilled, Some(1));
}

#[test]
fn wrong_asset_accounts_are_refused() {
    let mut accounts = ready();
    accounts.user_input_token_account.mint = mint_b();
    assert_eq!(fulfill(&accounts), custom(CustomError::InputMintMismatch));
    let mut accounts = ready();
    accounts.user_output_token_account.mint = mint_a();
    assert_eq!(fulfill(&accounts), custom(CustomError::OutputMintMismatch));
    let mut accounts = ready();
    accounts.solver_input_token_account.mint = mint_b();
    assert_eq!(fulfill(&accounts), custom(CustomError::InputMintMismatch));
    let mut accounts = ready();
    accounts.solver_output_token_account.mint = addr([12; 32]);
    assert_eq!(fulfill(&accounts), custom(CustomError::OutputMintMismatch));
    assert_eq!(fulfill(&accounts).unwrap_err().kind(), ErrorKind::Terms);
}

#[test]
fn accounts_of_the_wrong_owner_are_refused() {
    let mut accounts = ready();
    accounts.user_input_token_account.owner = solver();
    assert_eq!(fulfill(&accounts), custom(CustomError::UserTokenAccountMismatch));
    let mut accounts = ready();
    accounts.user_output_token_account.owner = solver();
    assert_eq!(fulfill(&accounts), custom(CustomError::UserTokenAccountMismatch));
    let mut accounts = ready();
    accounts.solver_input_token_account.owner = owner();
    assert_eq!(fulfill(&accounts), custom(CustomError::SolverTokenAccountMismatch));
    let mut accounts = ready();
    accounts.solver_output_token_account.owner = addr([3; 32]);
    assert_eq!(fulfill(&accounts), custom(CustomError::SolverTokenAccountMismatch));
}

#[test]
fn wrong_owner_named_in_the_call_is_refused() {
    // Through the derivation, another owner gives another address.
    let mut accounts = ready();
    accounts.user = solver();
    assert_eq!(fulfill(&accounts), Err(ProtocolError::Ledger(LedgerError::ConstraintSeeds)));
    // With the address taken as matching, the owner check itself refuses.
    let r = settle_intent(&accounts, 250, 1500, Some(addr(INTENT_ONE)), Some((addr(AUTHORITY), 253)));
    assert_eq!(r, custom(CustomError::UserAccountMismatch));
}

#[test]
fn substituted_authority_is_refused() {
    // Another address with the right tag, to which the owner even delegated.
    let mut accounts = ready();
    accounts.intent_authority.key = addr([66; 32]);
    assert_eq!(fulfill(&accounts), custom(CustomError::DelegateNotSet));
    accounts.user_input_token_account.delegate = Some(addr([66; 32]));
    assert_eq!(fulfill(&accounts), custom(CustomError::InvalidAuthorityPDA));
    assert_eq!(fulfill(&accounts).unwrap_err().kind(), ErrorKind::Authorization);
}

#[test]
fn wrong_authority_tag_is_refused() {
    let mut accounts = ready();
    accounts.intent_authority.bump = 254;
    assert_eq!(fulfill(&accounts), custom(CustomError::BumpMismatch));
    assert_eq!(fulfill(&accounts).unwrap_err().kind(), ErrorKind::Integrity);
    // The tag is compared before the address.
    accounts.intent_authority.key = addr([66; 32]);
    accounts.user_input_token_account.delegate = Some(addr([66; 32]));
    assert_eq!(fulfill(&accounts), custom(CustomError::BumpMismatch));
}

#[test]
fn authority_of_another_deployment_is_refused() {
    let r = fulfill_intent(&addr([3; 32]), &ready(), 1, 250, 1500);
    // In another deployment the record's address is another one too.
    assert_eq!(r, Err(ProtocolError::Ledger(LedgerError::ConstraintSeeds)));
    let r = settle_intent(&ready(), 250, 1500, Some(addr(INTENT_ONE)), Some((addr([5; 32]), 253)));
    assert_eq!(r, custom(CustomError::InvalidAuthorityPDA));
    let r = settle_intent(&ready(), 250, 1500, Some(addr(INTENT_ONE)), None);
    assert_eq!(r, custom(CustomError::InvalidAuthorityPDA));
}

#[test]
fn absent_record_is_refused() {
    let mut accounts = ready();
    accounts.intent.data = None;
    assert_eq!(fulfill(&accounts), Err(ProtocolError::Ledger(LedgerError::AccountNotInitialized)));
}

#[test]
fn unsigned_fulfillment_is_refused() {
    let mut accounts = ready();
    accounts.solver.is_signer = false;
    assert_eq!(fulfill(&accounts), Err(ProtocolError::Ledger(LedgerError::AccountNotSigner)));
}

#[test]
fn substituted_record_is_refused() {
    let mut accounts = ready();
    accounts.intent.key = addr([77; 32]);
    assert_eq!(fulfill(&accounts), Err(ProtocolError::Ledger(LedgerError::ConstraintSeeds)));
    let mut accounts = ready();
    let mut tampered = record();
    tampered.bump = 253;
    accounts.intent.data = Some(tampered);
    assert_eq!(fulfill(&accounts), Err(ProtocolError::Ledger(LedgerError::ConstraintSeeds)));
    // Another id gives another address.
    assert_eq!(
        fulfill_intent(&addr(PROGRAM), &ready(), 2, 250, 1500),
        Err(ProtocolError::Ledger(LedgerError::ConstraintSeeds))
    );
    assert_eq!(
        settle_intent(&ready(), 250, 1500, None, Some((addr(AUTHORITY), 253))),
        Err(ProtocolError::Ledger(LedgerError::ConstraintSeeds))
    );
}

#[test]
fn fulfillment_checks_come_in_order() {
    let authority = Some((addr(AUTHORITY), 253));
    let here = Some(addr(INTENT_ONE));
    let mut accounts = ready();
    let mut done = record();
    done.fulfilled = true;
    done.expiry_ts = Some(10);
    accounts.intent.data = Some(done);
    accounts.user_input_token_account.owner = solver();
    accounts.user = solver();
    accounts.solver_output_token_account.owner = owner();
    accounts.user_input_token_account.delegate = None;
    accounts.user_input_token_account.delegated_amount = 0;
    accounts.intent_authority.bump = 1;
    // Asset types of the four accounts come before the fulfilled flag.
    accounts.solver_output_token_account.mint = mint_a();
    assert_eq!(
        settle_intent(&accounts, 0, 1500, here, authority),
        custom(CustomError::OutputMintMismatch)
    );
    accounts.solver_output_token_account.mint = mint_b();
    assert_eq!(
        settle_intent(&accounts, 0, 1500, here, authority),
        custom(CustomError::IntentAlreadyFulfilled)
    );
    let mut open = done;
    open.fulfilled = false;
    accounts.intent.data = Some(open);
    assert_eq!(
        settle_intent(&accounts, 0, 1500, here, authority),
        custom(CustomError::UserTokenAccountMismatch)
    );
    accounts.user_input_token_account.owner = owner();
    assert_eq!(
        settle_intent(&accounts, 0, 1500, here, authority),
        custom(CustomError::UserAccountMismatch)
    );
    accounts.user = owner();
    assert_eq!(
        settle_intent(&accounts, 0, 1500, here, authority),
        custom(CustomError::SolverTokenAccountMismatch)
    );
    accounts.solver_output_token_account.owner = solver();
    assert_eq!(
        settle_intent(&accounts, 0, 1500, here, authority),
        custom(CustomError::InvalidOutputAmount)
    );
    assert_eq!(
        settle_intent(&accounts, 250, 1500, here, authority),
        custom(CustomError::IntentExpired)
    );
    assert_eq!(
        settle_intent(&accounts, 250, 9, here, authority),
        custom(CustomError::DelegateNotSet)
    );
    accounts.user_input_token_account.delegate = Some(addr(AUTHORITY));
    assert_eq!(
        settle_intent(&accounts, 250, 9, here, authority),
        custom(CustomError::InsufficientDelegatedAmount)
    );
    accounts.user_input_token_account.delegated_amount = 100;
    assert_eq!(
        settle_intent(&accounts, 250, 9, here, authority),
        custom(CustomError::BumpMismatch)
    );
    accounts.intent_authority.bump = 253;
    assert!(settle_intent(&accounts, 250, 9, here, authority).is_ok());
}

#[test]
fn fulfillment_carries_the_largest_amounts() {
    let mut accounts = ready();
    let mut big = record();
    big.input_amount = u64::MAX;
    accounts.intent.data = Some(big);
    accounts.user_input_token_account.delegated_amount = u64::MAX - 1;
    assert_eq!(fulfill(&accounts), custom(CustomError::InsufficientDelegatedAmount));
    accounts.user_input_token_account.delegated_amount = u64::MAX;
    let s = fulfill_intent(&addr(PROGRAM), &accounts, 1, u64::MAX, i64::MIN).unwrap();
    assert_eq!(s.user_to_solver.amount, u64::MAX);
    assert_eq!(s.solver_to_user.amount, u64::MAX);
    assert_eq!(s.intent.fulfilled_timestamp, Some(i64::MIN));
}
