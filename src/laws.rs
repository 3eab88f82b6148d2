//! Properties of the ledger's operations, stated over its model and proved.
use vstd::prelude::*;

use crate::account::{fresh_state, CustodyError, MIN_REQUIRED_SIGNATURES};
use crate::ledger::{
    create_step, deposit_step, stored_ok, view_step, withdraw_step, LedgerState,
};

verus! {

/// A successful creation records a threshold of at least the minimum; a
/// request below the minimum for an owner without an account aborts and
/// records nothing.
pub proof fn lemma_threshold_enforced(s: LedgerState, owner: Seq<u8>, required_signatures: nat, insured: bool)
    ensures
        create_step(s, owner, required_signatures, insured).0 == Ok::<bool, CustodyError>(true)
            ==> create_step(s, owner, required_signatures, insured).1.accounts[owner].required_signatures
            >= MIN_REQUIRED_SIGNATURES,
        required_signatures < MIN_REQUIRED_SIGNATURES && !s.accounts.contains_key(owner) ==> {
            &&& create_step(s, owner, required_signatures, insured).0 == Err::<bool, CustodyError>(
                CustodyError::ThresholdTooLow,
            )
            &&& create_step(s, owner, required_signatures, insured).1 == s
            &&& !create_step(s, owner, required_signatures, insured).1.accounts.contains_key(owner)
        },
{
}

/// Creating a second account for the same owner is refused with `false`: the
/// record of the first creation stays, and the counter grew exactly once.
pub proof fn lemma_create_twice(
    s: LedgerState,
    owner: Seq<u8>,
    first_signatures: nat,
    first_insured: bool,
    second_signatures: nat,
    second_insured: bool,
)
    requires
        create_step(s, owner, first_signatures, first_insured).0 == Ok::<bool, CustodyError>(true),
    ensures
        ({
            let once = create_step(s, owner, first_signatures, first_insured).1;
            let twice = create_step(once, owner, second_signatures, second_insured);
            &&& twice.0 == Ok::<bool, CustodyError>(false)
            &&& twice.1 == once
            &&& twice.1.accounts[owner] == fresh_state(owner, first_signatures, first_insured)
            &&& twice.1.total_accounts == s.total_accounts + 1
        }),
{
}

/// No creation, deposit or withdrawal makes a stored balance negative, or
/// otherwise breaks what every stored account satisfies.
pub proof fn lemma_operations_keep_accounts_valid(
    s: LedgerState,
    owner: Seq<u8>,
    required_signatures: nat,
    insured: bool,
    amount: int,
    signatures: nat,
)
    requires
        stored_ok(s),
    ensures
        stored_ok(create_step(s, owner, required_signatures, insured).1),
        stored_ok(deposit_step(s, owner, amount).1),
        stored_ok(withdraw_step(s, owner, amount, signatures).1),
{
}

/// A deposit of an amount that is not positive changes nothing.
pub proof fn lemma_nonpositive_deposit_changes_nothing(s: LedgerState, owner: Seq<u8>, amount: int)
    requires
        amount <= 0,
    ensures
        deposit_step(s, owner, amount) == (Ok::<bool, CustodyError>(false), s),
{
}

/// On an active account and a positive amount, too few signatures abort the
/// withdrawal whatever the balance; with enough signatures, an amount above
/// the balance is refused with `false` and changes nothing.
pub proof fn lemma_signature_gate(s: LedgerState, owner: Seq<u8>, amount: int, signatures: nat)
    requires
        s.accounts.contains_key(owner),
        s.accounts[owner].is_active,
        amount > 0,
    ensures
        signatures < s.accounts[owner].required_signatures ==> withdraw_step(
            s,
            owner,
            amount,
            signatures,
        ) == (Err::<bool, CustodyError>(CustodyError::InsufficientSignatures), s),
        signatures >= s.accounts[owner].required_signatures && amount > s.accounts[owner].balance
            ==> withdraw_step(s, owner, amount, signatures) == (Ok::<bool, CustodyError>(false), s),
{
}

/// On a fresh account, a deposit of `d` followed by a withdrawal of `w <= d`
/// with enough signatures both succeed, and a lookup then reports `d - w`.
pub proof fn lemma_deposit_withdraw_round_trip(
    s: LedgerState,
    owner: Seq<u8>,
    required_signatures: nat,
    insured: bool,
    d: int,
    w: int,
    signatures: nat,
)
    requires
        create_step(s, owner, required_signatures, insured).0 == Ok::<bool, CustodyError>(true),
        0 < w <= d <= i128::MAX,
        signatures >= required_signatures,
    ensures
        ({
            let created = create_step(s, owner, required_signatures, insured).1;
            let deposited = deposit_step(created, owner, d);
            let withdrawn = withdraw_step(deposited.1, owner, w, signatures);
            &&& deposited.0 == Ok::<bool, CustodyError>(true)
            &&& withdrawn.0 == Ok::<bool, CustodyError>(true)
            &&& view_step(withdrawn.1, owner).balance == d - w
        }),
{
}

/// A lookup of an owner that never had an account reports an inactive, empty
/// record with no threshold.
pub proof fn lemma_view_of_unknown_owner(s: LedgerState, owner: Seq<u8>)
    requires
        !s.accounts.contains_key(owner),
    ensures
        !view_step(s, owner).is_active,
        view_step(s, owner).balance == 0,
        view_step(s, owner).required_signatures == 0,
        view_step(s, owner).owner == owner,
{
}

} // verus!
