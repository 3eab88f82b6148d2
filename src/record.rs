//! The operations against a key-value store that holds one record per owner
//! and a counter: each takes what the store holds for the owner and says
//! what, if anything, is to be written back.
use vstd::prelude::*;

use crate::account::{
    deposit_rule, fresh_state, vacant_state, withdraw_rule, CustodyAccount, CustodyError,
    MIN_REQUIRED_SIGNATURES,
};

verus! {

/// Creation for `owner`, given the record stored for it and the counter.
/// `Ok(Some((account, total)))` is to be stored; `Ok(None)` means an account
/// already exists and nothing is written.
pub fn create_record(
    existing: &Option<CustodyAccount>,
    total_accounts: u64,
    owner: &Vec<u8>,
    required_signatures: u32,
    insurance: bool,
) -> (r: Result<Option<(CustodyAccount, u64)>, CustodyError>)
    ensures
        existing is Some ==> r == Ok::<Option<(CustodyAccount, u64)>, CustodyError>(None),
        existing is None && required_signatures < MIN_REQUIRED_SIGNATURES ==> r == Err::<
            Option<(CustodyAccount, u64)>,
            CustodyError,
        >(CustodyError::ThresholdTooLow),
        existing is None && required_signatures >= MIN_REQUIRED_SIGNATURES && total_accounts
            == u64::MAX ==> r == Err::<Option<(CustodyAccount, u64)>, CustodyError>(
            CustodyError::CounterOverflow,
        ),
        existing is None && required_signatures >= MIN_REQUIRED_SIGNATURES && total_accounts
            < u64::MAX ==> (r matches Ok(Some((a, t))) && a@ == fresh_state(
            owner@,
            required_signatures as nat,
            insurance,
        ) && t == total_accounts + 1),
{
    if existing.is_some() {
        return Ok(None);
    }
    let account = match CustodyAccount::open(owner, required_signatures, insurance) {
        Err(e) => return Err(e),
        Ok(a) => a,
    };
    if total_accounts == u64::MAX {
        return Err(CustodyError::CounterOverflow);
    }
    Ok(Some((account, total_accounts + 1)))
}

/// Deposit of `amount`, given the record stored for the owner.
/// `Ok(Some(account))` is to be stored; `Ok(None)` is a refusal that writes
/// nothing.
pub fn deposit_record(existing: Option<CustodyAccount>, amount: i128) -> (r: Result<
    Option<CustodyAccount>,
    CustodyError,
>)
    ensures
        amount <= 0 ==> r == Ok::<Option<CustodyAccount>, CustodyError>(None),
        amount > 0 && existing is None ==> r == Err::<Option<CustodyAccount>, CustodyError>(
            CustodyError::AccountNotFound,
        ),
        amount > 0 && existing is Some ==> ({
            let (outcome, after) = deposit_rule(existing->0@, amount as int);
            &&& outcome == Ok::<bool, CustodyError>(true) ==> (r matches Ok(Some(a)) && a@ == after)
            &&& outcome == Ok::<bool, CustodyError>(false) ==> r == Ok::<
                Option<CustodyAccount>,
                CustodyError,
            >(None)
            &&& outcome matches Err(e) ==> r == Err::<Option<CustodyAccount>, CustodyError>(e)
        }),
{
    if amount <= 0 {
        return Ok(None);
    }
    match existing {
        None => Err(CustodyError::AccountNotFound),
        Some(account) => {
            let mut account = account;
            match account.deposit(amount) {
                Err(e) => Err(e),
                Ok(false) => Ok(None),
                Ok(true) => Ok(Some(account)),
            }
        },
    }
}

/// Withdrawal of `amount` with `signatures_count` signatures, given the
/// record stored for the owner. `Ok(Some(account))` is to be stored;
/// `Ok(None)` is a refusal that writes nothing.
pub fn withdraw_record(existing: Option<CustodyAccount>, amount: i128, signatures_count: u32) -> (r:
    Result<Option<CustodyAccount>, CustodyError>)
    ensures
        amount <= 0 ==> r == Ok::<Option<CustodyAccount>, CustodyError>(None),
        amount > 0 && existing is None ==> r == Err::<Option<CustodyAccount>, CustodyError>(
            CustodyError::AccountNotFound,
        ),
        amount > 0 && existing is Some ==> ({
            let (outcome, after) = withdraw_rule(
                existing->0@,
                amount as int,
                signatures_count as nat,
            );
            &&& outcome == Ok::<bool, CustodyError>(true) ==> (r matches Ok(Some(a)) && a@ == after)
            &&& outcome == Ok::<bool, CustodyError>(false) ==> r == Ok::<
                Option<CustodyAccount>,
                CustodyError,
            >(None)
            &&& outcome matches Err(e) ==> r == Err::<Option<CustodyAccount>, CustodyError>(e)
        }),
{
    if amount <= 0 {
        return Ok(None);
    }
    match existing {
        None => Err(CustodyError::AccountNotFound),
        Some(account) => {
            let mut account = account;
            match account.withdraw(amount, signatures_count) {
                Err(e) => Err(e),
                Ok(false) => Ok(None),
                Ok(true) => Ok(Some(account)),
            }
        },
    }
}

/// What a lookup of `owner` reports, given the record stored for it.
pub fn view_record(existing: Option<CustodyAccount>, owner: &Vec<u8>) -> (r: CustodyAccount)
    ensures
        existing matches Some(a) ==> r@ == a@,
        existing is None ==> r@ == vacant_state(owner@),
{
    match existing {
        Some(a) => a,
        None => CustodyAccount::vacant(owner),
    }
}

} // verus!
