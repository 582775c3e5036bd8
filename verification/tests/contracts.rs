use ssal_commods::{AccountId, Error, SsalCommods};

fn alice() -> AccountId {
    AccountId::new([0x01; 32])
}

fn bob() -> AccountId {
    AccountId::new([0x02; 32])
}

/// An engine as the host starts it: the supply with Alice, who also stands for the custodian.
fn started(total_supply: u128) -> SsalCommods {
    SsalCommods::new(total_supply, alice(), alice())
}

#[test]
fn default_works() {
    let ssal = started(100_000);
    assert_eq!(ssal.get_contract_count(), 0);
    assert_eq!(ssal.total_supply(), 100_000);
}

#[test]
fn create_contract_works() {
    let mut ssal = started(100_000);

    // Alice owns all the tokens at the start
    assert_eq!(ssal.balance_of(alice()), 100_000);
    // Bob does not own tokens
    assert_eq!(ssal.balance_of(bob()), 0);

    // Test correct input.
    assert_eq!(ssal.create_contract(alice(), 10, 10_000, 10, 20, 0), Ok(0));
    assert_eq!(ssal.get_contract_count(), 1);
    assert_eq!(ssal.get_seller(0), Some(alice()));
    assert_eq!(ssal.get_buyer(0), None);
    assert_eq!(ssal.get_finality_block(0), Some(20));
    assert_eq!(ssal.get_price(0), Some(10));
    assert_eq!(ssal.get_total(0), Some(10_000));
    assert_eq!(ssal.get_weight(0), Some(10));
}

#[test]
fn create_contract_fails() {
    let mut ssal = started(100_000);

    // Alice owns all the tokens at the start
    assert_eq!(ssal.balance_of(alice()), 100_000);
    // Bob does not own tokens
    assert_eq!(ssal.balance_of(bob()), 0);

    // Test correct input.
    assert_eq!(ssal.create_contract(alice(), 10, 10_000, 10, 20, 0), Ok(0));
    assert_eq!(ssal.get_contract_count(), 1);

    // Test faulty input.
    // Advance block number
    let mut block: u32 = 0;
    for _ in 1..5 {
        block += 1;
    }
    assert_eq!(
        ssal.create_contract(alice(), 10, 10_000, 10, 1, block),
        Err(Error::InvalidBlockNumber)
    );
    assert_eq!(ssal.get_contract_count(), 1);
}

#[test]
fn buy_contract_works() {
    let mut ssal = started(100_000);

    // Alice owns all the tokens at the start
    assert_eq!(ssal.balance_of(alice()), 100_000);
    // Bob does not own tokens
    assert_eq!(ssal.balance_of(bob()), 0);

    assert_eq!(ssal.create_contract(alice(), 10, 10_000, 10, 20, 0), Ok(0));

    // Transfer funds to bob.
    // Make sure bob has 0 cash by default.
    assert_eq!(ssal.balance_of(bob()), 0);
    // Alice transfers tokens to Bob.
    assert_eq!(ssal.transfer(alice(), bob(), 10_000), Ok(()));
    // Bob owns the tokens.
    assert_eq!(ssal.balance_of(bob()), 10_000);

    // Try to buy in correct case
    assert_eq!(ssal.buy_contract(alice(), 0, 0), Ok(()));
}

#[test]
fn buy_contract_fails() {
    let mut ssal = started(100_000);

    assert_eq!(ssal.create_contract(alice(), 10, 10_000, 10, 20, 0), Ok(0));

    // Alice transfers tokens to Bob.
    assert_eq!(ssal.transfer(alice(), bob(), 10_000), Ok(()));

    // Try to buy in correct case
    assert_eq!(ssal.buy_contract(alice(), 0, 0), Ok(()));
    // Try to buy the contract that has just been bought
    assert_eq!(ssal.buy_contract(alice(), 0, 0), Err(Error::ContractAlreadyBought));
    // Try to buy a contract that does not exist
    assert_eq!(ssal.buy_contract(alice(), 1, 0), Err(Error::ContractNotFound));
    // Try to buy variations of contracts that cost too much
    assert_eq!(ssal.create_contract(alice(), 100_000, 100_000, 10, 20, 0), Ok(1));
    assert_eq!(ssal.create_contract(alice(), 100_000, 0, 10, 20, 0), Ok(2));
    assert_eq!(ssal.create_contract(alice(), 0, 100_000, 10, 20, 0), Ok(3));
    assert_eq!(ssal.buy_contract(alice(), 1, 0), Err(Error::InsufficientBalance));
    assert_eq!(ssal.buy_contract(alice(), 2, 0), Err(Error::InsufficientBalance));
    assert_eq!(ssal.buy_contract(alice(), 3, 0), Err(Error::InsufficientBalance));
}

#[test]
fn finalize_works() {
    let mut ssal = started(100_000);

    // Alice owns all the tokens at the start
    assert_eq!(ssal.balance_of(alice()), 100_000);

    // Create new contract and buy
    assert_eq!(ssal.create_contract(alice(), 10, 10_000, 10, 1, 0), Ok(0));
    assert_eq!(ssal.buy_contract(alice(), 0, 0), Ok(()));

    // Try finalizing after finality block
    assert_eq!(ssal.finalize(alice(), 0, 2), Ok(()));
}

#[test]
fn finalize_fails() {
    let mut ssal = started(100_000);

    // Alice owns all the tokens at the start
    assert_eq!(ssal.balance_of(alice()), 100_000);

    assert_eq!(ssal.finalize(alice(), 0, 0), Err(Error::ContractNotFound));

    // Create new contract and buy
    assert_eq!(ssal.create_contract(alice(), 10, 10_000, 10, 1, 0), Ok(0));
    assert_eq!(ssal.buy_contract(alice(), 0, 0), Ok(()));

    // Try finalizing at finality block
    assert_eq!(
        ssal.finalize(alice(), 0, 1),
        Err(Error::CannotFinalizeBeforeFinalityBlock)
    );

    // Try finalizing after finality block
    assert_eq!(ssal.finalize(alice(), 0, 2), Ok(()));

    // Try finalizing again on the same contract
    assert_eq!(ssal.finalize(alice(), 0, 2), Err(Error::ContractAlreadyFinalized));

    // Try finalizing contract after finality block that has not been bought
    assert_eq!(ssal.create_contract(alice(), 10, 10_000, 10, 3, 2), Ok(1));
    let mut block: u32 = 2;
    for _ in 1..5 {
        block += 1;
    }
    assert_eq!(ssal.finalize(alice(), 1, block), Err(Error::ContractNotPurchased));
}

#[test]
fn buy_and_finalize() {
    let contract_account = AccountId::new([0x07; 32]);
    let total_supply: u128 = 1_000_000_000;
    let mut ssal = SsalCommods::new(total_supply, alice(), contract_account);

    let transfer_to_bob = 500_000_000u128;
    assert_eq!(ssal.transfer(alice(), bob(), transfer_to_bob), Ok(()));
    let bob_balance = ssal.balance_of(bob());

    assert_eq!(ssal.create_contract(alice(), 10_000, 1_000_000, 100, 3, 1), Ok(0));
    let contract_count = ssal.get_contract_count();

    assert_eq!(ssal.buy_contract(bob(), 0, 2), Ok(()));
    let contract_buyer = ssal.get_buyer(0);

    assert_eq!(ssal.balance_of(contract_account), 1_000_000);
    assert_eq!(ssal.balance_of(alice()), 500_010_000);

    let finalize_not_buyer = ssal.finalize(alice(), 0, 4);
    assert!(
        finalize_not_buyer.is_err(),
        "accounts other than buyer should not be able to finalize the contract"
    );

    assert_eq!(ssal.finalize(bob(), 0, 4), Ok(()));

    assert_eq!(ssal.is_finalized(0).unwrap(), true);
    assert_eq!(ssal.balance_of(alice()), 501_010_000);
    assert_eq!(ssal.balance_of(contract_account), 0);

    assert_eq!(total_supply, ssal.total_supply(), "total_supply");
    assert_eq!(transfer_to_bob, bob_balance, "balance_of");
    assert_eq!(contract_count, 1);
    assert_eq!(contract_buyer.unwrap(), bob());
}
