use ssal_commods::amounts::Delegation;
use ssal_commods::ledger::LedgerRecord;
use ssal_commods::{AccountId, Approval, Error, TokenLedger, Transfer};

fn account(tag: u8) -> AccountId {
    AccountId::new([tag; 32])
}

#[test]
fn account_ids_compare_by_their_bytes() {
    let mut bytes = [0u8; 32];
    bytes[31] = 1;
    assert_eq!(AccountId::new(bytes), AccountId::new(bytes));
    assert_ne!(AccountId::new(bytes), AccountId::new([0u8; 32]));
    assert_eq!(AccountId::new(bytes).to_bytes(), bytes);
}

#[test]
fn genesis_credits_the_whole_supply_to_one_account() {
    let (ledger, minted) = TokenLedger::initialize(1_000, account(1));
    assert_eq!(minted, Transfer { from: None, to: Some(account(1)), value: 1_000 });
    assert_eq!(ledger.total_supply(), 1_000);
    assert_eq!(ledger.balance_of(account(1)), 1_000);
    assert_eq!(ledger.balance_of(account(2)), 0);
    assert_eq!(ledger.allowance(account(1), account(2)), 0);
    assert!(ledger.is_conserving());
}

#[test]
fn genesis_with_no_supply_is_in_order() {
    let (ledger, minted) = TokenLedger::initialize(0, account(1));
    assert_eq!(minted.value, 0);
    assert_eq!(ledger.balance_of(account(1)), 0);
    assert!(ledger.is_conserving());
}

#[test]
fn transfer_debits_and_credits_the_same_amount() {
    let (mut ledger, _) = TokenLedger::initialize(1_000, account(1));
    assert_eq!(
        ledger.transfer(account(1), account(2), 300),
        Ok(Transfer { from: Some(account(1)), to: Some(account(2)), value: 300 })
    );
    assert_eq!(ledger.balance_of(account(1)), 700);
    assert_eq!(ledger.balance_of(account(2)), 300);
    assert_eq!(ledger.balance_of(account(3)), 0);
    assert_eq!(ledger.total_supply(), 1_000);
    assert!(ledger.is_conserving());
}

#[test]
fn transfer_of_more_than_the_balance_changes_nothing() {
    let (mut ledger, _) = TokenLedger::initialize(1_000, account(1));
    assert_eq!(ledger.transfer(account(1), account(2), 1_001), Err(Error::InsufficientBalance));
    assert_eq!(ledger.transfer(account(2), account(1), 1), Err(Error::InsufficientBalance));
    assert_eq!(ledger.balance_of(account(1)), 1_000);
    assert_eq!(ledger.balance_of(account(2)), 0);
}

#[test]
fn transfer_of_the_exact_balance_empties_the_account() {
    let (mut ledger, _) = TokenLedger::initialize(1_000, account(1));
    assert!(ledger.transfer(account(1), account(2), 1_000).is_ok());
    assert_eq!(ledger.balance_of(account(1)), 0);
    assert_eq!(ledger.balance_of(account(2)), 1_000);
    assert!(ledger.is_conserving());
}

#[test]
fn transfer_to_oneself_keeps_the_balance() {
    let (mut ledger, _) = TokenLedger::initialize(u128::MAX, account(1));
    assert!(ledger.transfer(account(1), account(1), u128::MAX).is_ok());
    assert_eq!(ledger.balance_of(account(1)), u128::MAX);
    assert!(ledger.transfer(account(1), account(1), 0).is_ok());
    assert_eq!(ledger.balance_of(account(1)), u128::MAX);
    assert!(ledger.is_conserving());
}

#[test]
fn transfer_of_nothing_from_an_unknown_account_is_done() {
    let (mut ledger, _) = TokenLedger::initialize(5, account(1));
    assert!(ledger.transfer(account(2), account(3), 0).is_ok());
    assert_eq!(ledger.balance_of(account(2)), 0);
    assert_eq!(ledger.balance_of(account(3)), 0);
    assert!(ledger.is_conserving());
}

#[test]
fn approve_overwrites_the_allowance() {
    let (mut ledger, _) = TokenLedger::initialize(1_000, account(1));
    assert_eq!(
        ledger.approve(account(1), account(2), 50),
        Approval { owner: account(1), spender: account(2), value: 50 }
    );
    assert_eq!(ledger.allowance(account(1), account(2)), 50);
    ledger.approve(account(1), account(2), 7);
    assert_eq!(ledger.allowance(account(1), account(2)), 7);
    ledger.approve(account(1), account(2), 0);
    assert_eq!(ledger.allowance(account(1), account(2)), 0);
    // the allowance is kept per owner and spender, in that order
    ledger.approve(account(1), account(2), 9);
    assert_eq!(ledger.allowance(account(2), account(1)), 0);
    assert_eq!(ledger.allowance(account(1), account(3)), 0);
    assert_eq!(ledger.balance_of(account(1)), 1_000);
}

#[test]
fn transfer_from_lowers_allowance_and_balance_by_the_value() {
    let (mut ledger, _) = TokenLedger::initialize(1_000, account(1));
    ledger.approve(account(1), account(2), 400);
    assert_eq!(
        ledger.transfer_from(account(2), account(1), account(3), 150),
        Ok(Transfer { from: Some(account(1)), to: Some(account(3)), value: 150 })
    );
    assert_eq!(ledger.allowance(account(1), account(2)), 250);
    assert_eq!(ledger.balance_of(account(1)), 850);
    assert_eq!(ledger.balance_of(account(3)), 150);
    assert_eq!(ledger.balance_of(account(2)), 0);
    assert!(ledger.is_conserving());
}

#[test]
fn transfer_from_beyond_the_allowance_is_refused() {
    let (mut ledger, _) = TokenLedger::initialize(1_000, account(1));
    ledger.approve(account(1), account(2), 400);
    assert_eq!(
        ledger.transfer_from(account(2), account(1), account(3), 401),
        Err(Error::InsufficientAllowance)
    );
    // nothing was granted to the third account
    assert_eq!(
        ledger.transfer_from(account(3), account(1), account(3), 1),
        Err(Error::InsufficientAllowance)
    );
    assert_eq!(ledger.allowance(account(1), account(2)), 400);
    assert_eq!(ledger.balance_of(account(1)), 1_000);
}

#[test]
fn transfer_from_beyond_the_balance_leaves_the_allowance() {
    let (mut ledger, _) = TokenLedger::initialize(1_000, account(1));
    ledger.approve(account(1), account(2), 5_000);
    assert_eq!(
        ledger.transfer_from(account(2), account(1), account(3), 1_001),
        Err(Error::InsufficientBalance)
    );
    assert_eq!(ledger.allowance(account(1), account(2)), 5_000);
    assert_eq!(ledger.balance_of(account(1)), 1_000);
    assert_eq!(ledger.balance_of(account(3)), 0);
}

#[test]
fn transfer_from_checks_the_allowance_before_the_balance() {
    let (mut ledger, _) = TokenLedger::initialize(1_000, account(1));
    ledger.approve(account(1), account(2), 10);
    assert_eq!(
        ledger.transfer_from(account(2), account(1), account(3), 2_000),
        Err(Error::InsufficientAllowance)
    );
}

#[test]
fn transfer_from_to_the_owner_lowers_only_the_allowance() {
    let (mut ledger, _) = TokenLedger::initialize(1_000, account(1));
    ledger.approve(account(1), account(2), 400);
    assert!(ledger.transfer_from(account(2), account(1), account(1), 100).is_ok());
    assert_eq!(ledger.allowance(account(1), account(2)), 300);
    assert_eq!(ledger.balance_of(account(1)), 1_000);
}

#[test]
fn ledger_survives_export_and_restore() {
    let (mut ledger, _) = TokenLedger::initialize(1_000, account(1));
    ledger.transfer(account(1), account(2), 300).unwrap();
    ledger.approve(account(2), account(3), 20);
    let record = ledger.export();
    assert_eq!(record.total_supply, 1_000);
    assert_eq!(record.balances.len(), 2);
    assert_eq!(record.allowances.len(), 1);
    let read = TokenLedger::restore(record).expect("an exported ledger is admissible");
    assert_eq!(read.total_supply(), 1_000);
    assert_eq!(read.balance_of(account(1)), 700);
    assert_eq!(read.balance_of(account(2)), 300);
    assert_eq!(read.allowance(account(2), account(3)), 20);
    assert!(read.is_conserving());
}

#[test]
fn restore_refuses_an_account_listed_twice() {
    let record = LedgerRecord {
        total_supply: 10,
        balances: vec![(account(1), 5), (account(2), 0), (account(1), 5)],
        allowances: vec![],
    };
    assert!(TokenLedger::restore(record).is_none());
}

#[test]
fn restore_refuses_an_allowance_listed_twice() {
    let pair = Delegation { owner: account(1), spender: account(2) };
    let record = LedgerRecord {
        total_supply: 10,
        balances: vec![(account(1), 10)],
        allowances: vec![(pair, 1), (pair, 2)],
    };
    assert!(TokenLedger::restore(record).is_none());
    // the same two accounts the other way round are another pair
    let other = Delegation { owner: account(2), spender: account(1) };
    let record = LedgerRecord {
        total_supply: 10,
        balances: vec![(account(1), 10)],
        allowances: vec![(pair, 1), (other, 2)],
    };
    let read = TokenLedger::restore(record).expect("no pair occurs twice");
    assert_eq!(read.allowance(account(1), account(2)), 1);
    assert_eq!(read.allowance(account(2), account(1)), 2);
}

#[test]
fn a_ledger_that_does_not_add_up_is_told_apart() {
    let record = LedgerRecord {
        total_supply: 10,
        balances: vec![(account(1), 5), (account(2), 4)],
        allowances: vec![],
    };
    let read = TokenLedger::restore(record).expect("no account occurs twice");
    assert!(!read.is_conserving());
    let record = LedgerRecord {
        total_supply: u128::MAX,
        balances: vec![(account(1), u128::MAX), (account(2), 1)],
        allowances: vec![],
    };
    let read = TokenLedger::restore(record).expect("no account occurs twice");
    assert!(!read.is_conserving());
}

#[test]
fn a_credit_that_would_overflow_is_refused_whole() {
    // only a ledger that holds more than its supply can get here
    let record = LedgerRecord {
        total_supply: u128::MAX,
        balances: vec![(account(1), 10), (account(2), u128::MAX - 4)],
        allowances: vec![],
    };
    let mut ledger = TokenLedger::restore(record).expect("no account occurs twice");
    assert_eq!(ledger.transfer(account(1), account(2), 5), Err(Error::ArithmeticOverflow));
    assert_eq!(ledger.balance_of(account(1)), 10);
    assert_eq!(ledger.balance_of(account(2)), u128::MAX - 4);
    // want of funds is found first
    assert_eq!(ledger.transfer(account(1), account(2), 11), Err(Error::InsufficientBalance));
    // up to the top of the range the credit is done
    assert!(ledger.transfer(account(1), account(2), 4).is_ok());
    assert_eq!(ledger.balance_of(account(1)), 6);
    assert_eq!(ledger.balance_of(account(2)), u128::MAX);
}
