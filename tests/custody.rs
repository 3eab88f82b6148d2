use asset_custody::account::{CustodyAccount, CustodyError, MIN_REQUIRED_SIGNATURES};
use asset_custody::ledger::AssetCustodyContract;
use asset_custody::record::{create_record, deposit_record, view_record, withdraw_record};

fn owner(name: &str) -> Vec<u8> {
    name.as_bytes().to_vec()
}

#[test]
fn scenario_create_deposit_withdraw() {
    let a = owner("GA_OWNER_A");
    let mut c = AssetCustodyContract::new();
    assert_eq!(c.create_custody_account(&a, 2, true), Ok(true));
    assert_eq!(c.total_accounts(), 1);
    assert_eq!(c.deposit_assets(&a, 100), Ok(true));
    assert_eq!(c.view_custody_account(&a).balance, 100);
    assert_eq!(c.withdraw_assets(&a, 150, 2), Ok(false));
    assert_eq!(c.view_custody_account(&a).balance, 100);
    assert_eq!(
        c.withdraw_assets(&a, 50, 1),
        Err(CustodyError::InsufficientSignatures)
    );
    assert_eq!(c.view_custody_account(&a).balance, 100);
    assert_eq!(c.withdraw_assets(&a, 50, 2), Ok(true));
    let v = c.view_custody_account(&a);
    assert_eq!(v.balance, 50);
    assert_eq!(v.owner, a);
    assert_eq!(v.required_signatures, 2);
    assert!(v.is_insured);
    assert!(v.is_active);
}

#[test]
fn view_of_unknown_owner_is_vacant() {
    let c = AssetCustodyContract::new();
    let b = owner("GB_NOBODY");
    let v = c.view_custody_account(&b);
    assert!(!v.is_active);
    assert_eq!(v.balance, 0);
    assert_eq!(v.required_signatures, 0);
    assert!(!v.is_insured);
    assert_eq!(v.owner, b);
}

#[test]
fn threshold_below_minimum_aborts_and_records_nothing() {
    let a = owner("GA");
    let mut c = AssetCustodyContract::new();
    assert_eq!(
        c.create_custody_account(&a, 1, false),
        Err(CustodyError::ThresholdTooLow)
    );
    assert_eq!(
        c.create_custody_account(&a, 0, true),
        Err(CustodyError::ThresholdTooLow)
    );
    assert_eq!(c.total_accounts(), 0);
    assert!(!c.view_custody_account(&a).is_active);
    assert_eq!(c.create_custody_account(&a, MIN_REQUIRED_SIGNATURES, false), Ok(true));
    assert_eq!(c.view_custody_account(&a).required_signatures, 2);
}

#[test]
fn second_creation_is_refused_and_keeps_first_record() {
    let a = owner("GA");
    let mut c = AssetCustodyContract::new();
    assert_eq!(c.create_custody_account(&a, 3, true), Ok(true));
    assert_eq!(c.create_custody_account(&a, 5, false), Ok(false));
    assert_eq!(c.create_custody_account(&a, 1, false), Ok(false));
    assert_eq!(c.total_accounts(), 1);
    let v = c.view_custody_account(&a);
    assert_eq!(v.required_signatures, 3);
    assert!(v.is_insured);
    assert_eq!(v.balance, 0);
}

#[test]
fn accounts_of_different_owners_are_independent() {
    let a = owner("GA");
    let b = owner("GB");
    let mut c = AssetCustodyContract::new();
    assert_eq!(c.create_custody_account(&a, 2, false), Ok(true));
    assert_eq!(c.create_custody_account(&b, 4, true), Ok(true));
    assert_eq!(c.total_accounts(), 2);
    assert_eq!(c.deposit_assets(&b, 7), Ok(true));
    assert_eq!(c.view_custody_account(&a).balance, 0);
    assert_eq!(c.view_custody_account(&b).balance, 7);
    assert_eq!(c.view_custody_account(&b).required_signatures, 4);
}

#[test]
fn nonpositive_deposit_changes_nothing() {
    let a = owner("GA");
    let mut c = AssetCustodyContract::new();
    assert_eq!(c.create_custody_account(&a, 2, false), Ok(true));
    assert_eq!(c.deposit_assets(&a, 10), Ok(true));
    assert_eq!(c.deposit_assets(&a, 0), Ok(false));
    assert_eq!(c.deposit_assets(&a, -5), Ok(false));
    assert_eq!(c.deposit_assets(&a, i128::MIN), Ok(false));
    assert_eq!(c.view_custody_account(&a).balance, 10);
}

#[test]
fn nonpositive_amount_is_refused_before_the_account_is_looked_up() {
    let mut c = AssetCustodyContract::new();
    let z = owner("GZ");
    assert_eq!(c.deposit_assets(&z, 0), Ok(false));
    assert_eq!(c.withdraw_assets(&z, -1, 9), Ok(false));
}

#[test]
fn missing_account_aborts_deposit_and_withdrawal() {
    let mut c = AssetCustodyContract::new();
    let z = owner("GZ");
    assert_eq!(c.deposit_assets(&z, 5), Err(CustodyError::AccountNotFound));
    assert_eq!(c.withdraw_assets(&z, 5, 3), Err(CustodyError::AccountNotFound));
    assert_eq!(c.total_accounts(), 0);
}

#[test]
fn insufficient_signatures_abort_whatever_the_balance() {
    let a = owner("GA");
    let mut c = AssetCustodyContract::new();
    assert_eq!(c.create_custody_account(&a, 3, false), Ok(true));
    assert_eq!(c.withdraw_assets(&a, 1, 2), Err(CustodyError::InsufficientSignatures));
    assert_eq!(c.deposit_assets(&a, 1000), Ok(true));
    assert_eq!(c.withdraw_assets(&a, 1, 2), Err(CustodyError::InsufficientSignatures));
    assert_eq!(c.withdraw_assets(&a, 5000, 0), Err(CustodyError::InsufficientSignatures));
    assert_eq!(c.view_custody_account(&a).balance, 1000);
}

#[test]
fn withdrawal_above_balance_is_refused() {
    let a = owner("GA");
    let mut c = AssetCustodyContract::new();
    assert_eq!(c.create_custody_account(&a, 2, false), Ok(true));
    assert_eq!(c.deposit_assets(&a, 30), Ok(true));
    assert_eq!(c.withdraw_assets(&a, 31, 5), Ok(false));
    assert_eq!(c.view_custody_account(&a).balance, 30);
    assert_eq!(c.withdraw_assets(&a, 30, 2), Ok(true));
    assert_eq!(c.view_custody_account(&a).balance, 0);
    assert_eq!(c.withdraw_assets(&a, 1, 2), Ok(false));
    assert_eq!(c.view_custody_account(&a).balance, 0);
}

#[test]
fn deposit_then_withdraw_round_trip() {
    let a = owner("GA");
    let mut c = AssetCustodyContract::new();
    assert_eq!(c.create_custody_account(&a, 2, true), Ok(true));
    assert_eq!(c.deposit_assets(&a, 250), Ok(true));
    assert_eq!(c.withdraw_assets(&a, 75, 4), Ok(true));
    assert_eq!(c.view_custody_account(&a).balance, 175);
}

#[test]
fn balance_overflow_aborts() {
    let a = owner("GA");
    let mut c = AssetCustodyContract::new();
    assert_eq!(c.create_custody_account(&a, 2, false), Ok(true));
    assert_eq!(c.deposit_assets(&a, i128::MAX), Ok(true));
    assert_eq!(c.deposit_assets(&a, 1), Err(CustodyError::BalanceOverflow));
    assert_eq!(c.view_custody_account(&a).balance, i128::MAX);
    assert_eq!(c.withdraw_assets(&a, i128::MAX, 2), Ok(true));
    assert_eq!(c.view_custody_account(&a).balance, 0);
}

#[test]
fn balance_stays_nonnegative_over_a_sequence() {
    let a = owner("GA");
    let mut c = AssetCustodyContract::new();
    assert_eq!(c.create_custody_account(&a, 2, false), Ok(true));
    let steps: [(bool, i128); 8] = [
        (true, 5),
        (false, 3),
        (false, 3),
        (true, -4),
        (false, 2),
        (true, 10),
        (false, 11),
        (false, 10),
    ];
    for (is_deposit, amount) in steps {
        if is_deposit {
            let _ = c.deposit_assets(&a, amount);
        } else {
            let _ = c.withdraw_assets(&a, amount, 2);
        }
        assert!(c.view_custody_account(&a).balance >= 0);
    }
    assert_eq!(c.view_custody_account(&a).balance, 0);
}

#[test]
fn account_rules_on_a_single_record() {
    let a = owner("GA");
    assert_eq!(CustodyAccount::open(&a, 1, true).err(), Some(CustodyError::ThresholdTooLow));
    let mut acc = CustodyAccount::open(&a, 2, true).ok().unwrap();
    assert_eq!(acc.balance, 0);
    assert!(acc.is_active);
    assert_eq!(acc.authorize_withdrawal(1), Err(CustodyError::InsufficientSignatures));
    assert_eq!(acc.authorize_withdrawal(2), Ok(()));
    assert_eq!(acc.deposit(40), Ok(true));
    assert_eq!(acc.withdraw(15, 2), Ok(true));
    assert_eq!(acc.balance, 25);
    let copy = acc.snapshot();
    assert_eq!(copy.balance, 25);
    assert_eq!(copy.owner, a);
    let mut idle = CustodyAccount::vacant(&a);
    assert!(!idle.is_active);
    assert_eq!(idle.deposit(10), Ok(false));
    assert_eq!(idle.withdraw(10, 9), Ok(false));
    assert_eq!(idle.balance, 0);
}

#[test]
fn record_steps_against_a_store() {
    let a = owner("GA");
    assert_eq!(create_record(&None, 0, &a, 1, true).err(), Some(CustodyError::ThresholdTooLow));
    assert_eq!(
        create_record(&None, u64::MAX, &a, 2, true).err(),
        Some(CustodyError::CounterOverflow)
    );
    let (acc, total) = create_record(&None, 4, &a, 2, true).ok().unwrap().unwrap();
    assert_eq!(total, 5);
    assert_eq!(acc.balance, 0);
    assert!(acc.is_active && acc.is_insured);
    let existing = Some(acc.snapshot());
    assert!(create_record(&existing, 5, &a, 3, false).ok().unwrap().is_none());

    assert!(deposit_record(Some(acc.snapshot()), 0).ok().unwrap().is_none());
    assert_eq!(deposit_record(None, 5).err(), Some(CustodyError::AccountNotFound));
    let acc = deposit_record(Some(acc), 100).ok().unwrap().unwrap();
    assert_eq!(acc.balance, 100);

    assert!(withdraw_record(Some(acc.snapshot()), 150, 2).ok().unwrap().is_none());
    assert_eq!(
        withdraw_record(Some(acc.snapshot()), 50, 1).err(),
        Some(CustodyError::InsufficientSignatures)
    );
    assert_eq!(withdraw_record(None, 50, 2).err(), Some(CustodyError::AccountNotFound));
    let acc = withdraw_record(Some(acc), 50, 2).ok().unwrap().unwrap();
    assert_eq!(acc.balance, 50);

    assert_eq!(view_record(Some(acc), &a).balance, 50);
    let v = view_record(None, &a);
    assert!(!v.is_active);
    assert_eq!(v.required_signatures, 0);
    assert_eq!(v.owner, a);
}
