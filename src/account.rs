//! A single custody account and the rules that move its balance.
use vstd::prelude::*;

verus! {

/// Smallest withdrawal threshold an account may be created with.
pub const MIN_REQUIRED_SIGNATURES: u32 = 2;

/// Why an operation was aborted; an aborted operation has no effect.
#[derive(Debug, Clone, Copy, PartialEq, Eq, Structural)]
pub enum CustodyError {
    /// The requested signature threshold is below the minimum.
    ThresholdTooLow,
    /// No account exists for the owner.
    AccountNotFound,
    /// Fewer signatures were presented than the account requires.
    InsufficientSignatures,
    /// The new balance would not fit in an `i128`.
    BalanceOverflow,
    /// The account counter would not fit in a `u64`.
    CounterOverflow,
}

/// The mathematical content of a custody account.
pub ghost struct AccountState {
    pub owner: Seq<u8>,
    pub balance: int,
    pub required_signatures: nat,
    pub is_insured: bool,
    pub is_active: bool,
}

/// A freshly created account: empty, active, with the given policy.
pub open spec fn fresh_state(owner: Seq<u8>, required_signatures: nat, insured: bool) -> AccountState {
    AccountState { owner, balance: 0, required_signatures, is_insured: insured, is_active: true }
}

/// What a lookup reports for an owner that has no account.
pub open spec fn vacant_state(owner: Seq<u8>) -> AccountState {
    AccountState {
        owner,
        balance: 0,
        required_signatures: 0,
        is_insured: false,
        is_active: false,
    }
}

/// The same account with another balance.
pub open spec fn with_balance(a: AccountState, balance: int) -> AccountState {
    AccountState { balance, ..a }
}

/// Deposit of `amount` into an existing account: the result and the account after.
pub open spec fn deposit_rule(a: AccountState, amount: int) -> (Result<bool, CustodyError>, AccountState) {
    if amount <= 0 || !a.is_active {
        (Ok(false), a)
    } else if a.balance + amount > i128::MAX {
        (Err(CustodyError::BalanceOverflow), a)
    } else {
        (Ok(true), with_balance(a, a.balance + amount))
    }
}

/// Withdrawal of `amount` from an existing account with `signatures`
/// signatures presented: the result and the account after.
pub open spec fn withdraw_rule(a: AccountState, amount: int, signatures: nat) -> (
    Result<bool, CustodyError>,
    AccountState,
) {
    if amount <= 0 || !a.is_active {
        (Ok(false), a)
    } else if signatures < a.required_signatures {
        (Err(CustodyError::InsufficientSignatures), a)
    } else if a.balance < amount {
        (Ok(false), a)
    } else {
        (Ok(true), with_balance(a, a.balance - amount))
    }
}

/// One owner's custody account.
pub struct CustodyAccount {
    pub owner: Vec<u8>,
    pub balance: i128,
    pub required_signatures: u32,
    pub is_insured: bool,
    pub is_active: bool,
}

impl View for CustodyAccount {
    type V = AccountState;

    open spec fn view(&self) -> AccountState {
        AccountState {
            owner: self.owner@,
            balance: self.balance as int,
            required_signatures: self.required_signatures as nat,
            is_insured: self.is_insured,
            is_active: self.is_active,
        }
    }
}

/// A copy of an owner identity.
pub fn copy_owner(owner: &Vec<u8>) -> (r: Vec<u8>)
    ensures
        r@ == owner@,
{
    let mut r: Vec<u8> = Vec::with_capacity(owner.len());
    let mut i: usize = 0;
    while i < owner.len()
        invariant
            i <= owner@.len(),
            r@ == owner@.subrange(0, i as int),
        decreases owner@.len() - i,
    {
        r.push(owner[i]);
        i += 1;
        assert(r@ =~= owner@.subrange(0, i as int));
    }
    assert(r@ =~= owner@);
    r
}

/// Whether two owner identities are the same.
pub fn same_owner(a: &Vec<u8>, b: &Vec<u8>) -> (r: bool)
    ensures
        r == (a@ == b@),
{
    if a.len() != b.len() {
        return false;
    }
    let mut i: usize = 0;
    while i < a.len()
        invariant
            a@.len() == b@.len(),
            i <= a@.len(),
            forall|j: int| 0 <= j < i ==> a@[j] == b@[j],
        decreases a@.len() - i,
    {
        if a[i] != b[i] {
            return false;
        }
        i += 1;
    }
    assert(a@ =~= b@);
    true
}

impl CustodyAccount {
    /// Opens an empty, active account; a threshold below the minimum is refused.
    pub fn open(owner: &Vec<u8>, required_signatures: u32, insured: bool) -> (r: Result<
        CustodyAccount,
        CustodyError,
    >)
        ensures
            required_signatures < MIN_REQUIRED_SIGNATURES <==> r == Err::<CustodyAccount, CustodyError>(
                CustodyError::ThresholdTooLow,
            ),
            r is Ok <==> required_signatures >= MIN_REQUIRED_SIGNATURES,
            r matches Ok(a) ==> a@ == fresh_state(owner@, required_signatures as nat, insured),
    {
        if required_signatures < MIN_REQUIRED_SIGNATURES {
            return Err(CustodyError::ThresholdTooLow);
        }
        Ok(
            CustodyAccount {
                owner: copy_owner(owner),
                balance: 0,
                required_signatures,
                is_insured: insured,
                is_active: true,
            },
        )
    }

    /// The record a lookup reports for an owner with no account.
    pub fn vacant(owner: &Vec<u8>) -> (r: CustodyAccount)
        ensures
            r@ == vacant_state(owner@),
    {
        CustodyAccount {
            owner: copy_owner(owner),
            balance: 0,
            required_signatures: 0,
            is_insured: false,
            is_active: false,
        }
    }

    /// A copy of this account.
    pub fn snapshot(&self) -> (r: CustodyAccount)
        ensures
            r@ == self@,
    {
        CustodyAccount {
            owner: copy_owner(&self.owner),
            balance: self.balance,
            required_signatures: self.required_signatures,
            is_insured: self.is_insured,
            is_active: self.is_active,
        }
    }

    /// The authorization gate: passes when at least the required number of
    /// signatures was presented.
    pub fn authorize_withdrawal(&self, signatures_count: u32) -> (r: Result<(), CustodyError>)
        ensures
            r is Ok <==> signatures_count >= self.required_signatures,
            r is Err ==> r == Err::<(), CustodyError>(CustodyError::InsufficientSignatures),
    {
        if signatures_count < self.required_signatures {
            Err(CustodyError::InsufficientSignatures)
        } else {
            Ok(())
        }
    }

    /// Adds `amount` to the balance of an active account.
    pub fn deposit(&mut self, amount: i128) -> (r: Result<bool, CustodyError>)
        ensures
            (r, final(self)@) == deposit_rule(old(self)@, amount as int),
    {
        if amount <= 0 || !self.is_active {
            return Ok(false);
        }
        match self.balance.checked_add(amount) {
            None => Err(CustodyError::BalanceOverflow),
            Some(b) => {
                self.balance = b;
                Ok(true)
            },
        }
    }

    /// Takes `amount` from the balance of an active account, once enough
    /// signatures were presented and the balance covers it.
    pub fn withdraw(&mut self, amount: i128, signatures_count: u32) -> (r: Result<bool, CustodyError>)
        ensures
            (r, final(self)@) == withdraw_rule(old(self)@, amount as int, signatures_count as nat),
    {
        if amount <= 0 || !self.is_active {
            return Ok(false);
        }
        match self.authorize_withdrawal(signatures_count) {
            Err(e) => Err(e),
            Ok(()) => {
                if self.balance < amount {
                    Ok(false)
                } else {
                    self.balance = self.balance - amount;
                    Ok(true)
                }
            },
        }
    }
}

} // verus!
