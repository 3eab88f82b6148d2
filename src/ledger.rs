//! The registry of custody accounts, keyed by owner, with its account counter.
use vstd::prelude::*;

use crate::account::{
    deposit_rule, fresh_state, same_owner, vacant_state, withdraw_rule, AccountState, CustodyAccount,
    CustodyError, MIN_REQUIRED_SIGNATURES,
};

verus! {

/// The mathematical content of the ledger: one account per owner, and how
/// many accounts were ever created.
pub ghost struct LedgerState {
    pub accounts: Map<Seq<u8>, AccountState>,
    pub total_accounts: nat,
}

/// An empty ledger.
pub open spec fn empty_ledger() -> LedgerState {
    LedgerState { accounts: Map::empty(), total_accounts: 0 }
}

/// What every stored account satisfies: filed under its own owner, a
/// threshold of at least the minimum, and a balance that is not negative.
pub open spec fn stored_ok(s: LedgerState) -> bool {
    forall|k: Seq<u8>|
        #[trigger] s.accounts.contains_key(k) ==> {
            &&& s.accounts[k].owner == k
            &&& s.accounts[k].required_signatures >= MIN_REQUIRED_SIGNATURES
            &&& s.accounts[k].balance >= 0
        }
}

/// Creation of an account for `owner`: the result and the ledger after.
pub open spec fn create_step(s: LedgerState, owner: Seq<u8>, required_signatures: nat, insured: bool) -> (
    Result<bool, CustodyError>,
    LedgerState,
) {
    if s.accounts.contains_key(owner) {
        (Ok(false), s)
    } else if required_signatures < MIN_REQUIRED_SIGNATURES {
        (Err(CustodyError::ThresholdTooLow), s)
    } else if s.total_accounts + 1 > u64::MAX {
        (Err(CustodyError::CounterOverflow), s)
    } else {
        (
            Ok(true),
            LedgerState {
                accounts: s.accounts.insert(owner, fresh_state(owner, required_signatures, insured)),
                total_accounts: s.total_accounts + 1,
            },
        )
    }
}

/// Deposit into `owner`'s account: the result and the ledger after.
pub open spec fn deposit_step(s: LedgerState, owner: Seq<u8>, amount: int) -> (
    Result<bool, CustodyError>,
    LedgerState,
) {
    if amount <= 0 {
        (Ok(false), s)
    } else if !s.accounts.contains_key(owner) {
        (Err(CustodyError::AccountNotFound), s)
    } else {
        let (r, a) = deposit_rule(s.accounts[owner], amount);
        if r == Ok::<bool, CustodyError>(true) {
            (r, LedgerState { accounts: s.accounts.insert(owner, a), ..s })
        } else {
            (r, s)
        }
    }
}

/// Withdrawal from `owner`'s account: the result and the ledger after.
pub open spec fn withdraw_step(s: LedgerState, owner: Seq<u8>, amount: int, signatures: nat) -> (
    Result<bool, CustodyError>,
    LedgerState,
) {
    if amount <= 0 {
        (Ok(false), s)
    } else if !s.accounts.contains_key(owner) {
        (Err(CustodyError::AccountNotFound), s)
    } else {
        let (r, a) = withdraw_rule(s.accounts[owner], amount, signatures);
        if r == Ok::<bool, CustodyError>(true) {
            (r, LedgerState { accounts: s.accounts.insert(owner, a), ..s })
        } else {
            (r, s)
        }
    }
}

/// What a lookup of `owner` reports.
pub open spec fn view_step(s: LedgerState, owner: Seq<u8>) -> AccountState {
    if s.accounts.contains_key(owner) {
        s.accounts[owner]
    } else {
        vacant_state(owner)
    }
}

/// The custody ledger.
pub struct AssetCustodyContract {
    accounts: Vec<CustodyAccount>,
    total_accounts: u64,
    book: Ghost<Map<Seq<u8>, AccountState>>,
}

impl View for AssetCustodyContract {
    type V = LedgerState;

    closed spec fn view(&self) -> LedgerState {
        LedgerState { accounts: self.book@, total_accounts: self.total_accounts as nat }
    }
}

impl AssetCustodyContract {
    /// The ledger's internal invariant.
    pub closed spec fn wf(&self) -> bool {
        &&& forall|i: int|
            0 <= i < self.accounts@.len() ==> {
                &&& self.book@.contains_key(#[trigger] self.accounts@[i].owner@)
                &&& self.book@[self.accounts@[i].owner@] == self.accounts@[i]@
            }
        &&& forall|k: Seq<u8>|
            #[trigger] self.book@.contains_key(k) ==> exists|i: int|
                0 <= i < self.accounts@.len() && #[trigger] self.accounts@[i].owner@ == k
        &&& forall|i: int, j: int|
            0 <= i < j < self.accounts@.len() ==> #[trigger] self.accounts@[i].owner@
                != #[trigger] self.accounts@[j].owner@
        &&& stored_ok(self@)
    }

    /// Every account a well-formed ledger holds is filed under its owner,
    /// demands at least the minimum number of signatures and has a balance
    /// that is not negative.
    pub proof fn lemma_accounts_valid(&self)
        requires
            self.wf(),
        ensures
            stored_ok(self@),
    {
    }

    /// An empty ledger.
    pub fn new() -> (r: AssetCustodyContract)
        ensures
            r.wf(),
            r@ == empty_ledger(),
    {
        let r = AssetCustodyContract {
            accounts: Vec::new(),
            total_accounts: 0,
            book: Ghost(Map::empty()),
        };
        assert(r@.accounts =~= empty_ledger().accounts);
        r
    }

    /// Where `owner`'s account is stored, if anywhere.
    fn position(&self, owner: &Vec<u8>) -> (r: Option<usize>)
        requires
            self.wf(),
        ensures
            match r {
                Some(i) => i < self.accounts@.len() && self.accounts@[i as int].owner@ == owner@,
                None => !self@.accounts.contains_key(owner@),
            },
    {
        let mut i: usize = 0;
        while i < self.accounts.len()
            invariant
                i <= self.accounts@.len(),
                forall|j: int| 0 <= j < i ==> self.accounts@[j].owner@ != owner@,
            decreases self.accounts@.len() - i,
        {
            if same_owner(&self.accounts[i].owner, owner) {
                return Some(i);
            }
            i += 1;
        }
        None
    }

    /// The number of accounts created so far.
    pub fn total_accounts(&self) -> (r: u64)
        ensures
            r as nat == self@.total_accounts,
    {
        self.total_accounts
    }

    /// Creates `owner`'s account; `Ok(false)` when one already exists.
    pub fn create_custody_account(
        &mut self,
        owner: &Vec<u8>,
        required_signatures: u32,
        insurance: bool,
    ) -> (r: Result<bool, CustodyError>)
        requires
            old(self).wf(),
        ensures
            final(self).wf(),
            (r, final(self)@) == create_step(
                old(self)@,
                owner@,
                required_signatures as nat,
                insurance,
            ),
    {
        if self.position(owner).is_some() {
            return Ok(false);
        }
        let account = match CustodyAccount::open(owner, required_signatures, insurance) {
            Err(e) => return Err(e),
            Ok(a) => a,
        };
        if self.total_accounts == u64::MAX {
            return Err(CustodyError::CounterOverflow);
        }
        let ghost old_len = self.accounts@.len();
        let ghost state = account@;
        self.accounts.push(account);
        self.total_accounts = self.total_accounts + 1;
        proof {
            self.book = Ghost(self.book@.insert(owner@, state));
            assert forall|k: Seq<u8>| #[trigger] self.book@.contains_key(k) implies exists|i: int|
                0 <= i < self.accounts@.len() && #[trigger] self.accounts@[i].owner@ == k by {
                if k == owner@ {
                    assert(self.accounts@[old_len as int].owner@ == k);
                } else {
                    let i = choose|i: int|
                        0 <= i < old(self).accounts@.len() && #[trigger] old(self).accounts@[i].owner@
                            == k;
                    assert(self.accounts@[i].owner@ == k);
                }
            }
        }
        Ok(true)
    }

    /// Puts `account` back in slot `i` after an operation on it.
    fn restore(&mut self, i: usize, account: CustodyAccount)
        requires
            i <= old(self).accounts@.len(),
        ensures
            final(self).accounts@ == old(self).accounts@.insert(i as int, account),
            final(self).total_accounts == old(self).total_accounts,
            final(self).book == old(self).book,
    {
        self.accounts.insert(i, account);
    }

    /// Deposits `amount` into `owner`'s account.
    pub fn deposit_assets(&mut self, owner: &Vec<u8>, amount: i128) -> (r: Result<bool, CustodyError>)
        requires
            old(self).wf(),
        ensures
            final(self).wf(),
            (r, final(self)@) == deposit_step(old(self)@, owner@, amount as int),
    {
        if amount <= 0 {
            return Ok(false);
        }
        match self.position(owner) {
            None => Err(CustodyError::AccountNotFound),
            Some(i) => {
                let mut account = self.accounts.remove(i);
                let r = account.deposit(amount);
                let ghost state = account@;
                self.restore(i, account);
                proof {
                    assert(old(self)@.accounts.contains_key(old(self).accounts@[i as int].owner@));
                    assert(self.accounts@ =~= old(self).accounts@.update(
                        i as int,
                        self.accounts@[i as int],
                    ));
                    self.book = Ghost(self.book@.insert(state.owner, state));
                    lemma_replaced(old(self), self, i as int, state);
                }
                r
            },
        }
    }

    /// Withdraws `amount` from `owner`'s account, given `signatures_count`
    /// signatures.
    pub fn withdraw_assets(&mut self, owner: &Vec<u8>, amount: i128, signatures_count: u32) -> (r:
        Result<bool, CustodyError>)
        requires
            old(self).wf(),
        ensures
            final(self).wf(),
            (r, final(self)@) == withdraw_step(
                old(self)@,
                owner@,
                amount as int,
                signatures_count as nat,
            ),
    {
        if amount <= 0 {
            return Ok(false);
        }
        match self.position(owner) {
            None => Err(CustodyError::AccountNotFound),
            Some(i) => {
                let mut account = self.accounts.remove(i);
                let r = account.withdraw(amount, signatures_count);
                let ghost state = account@;
                self.restore(i, account);
                proof {
                    assert(old(self)@.accounts.contains_key(old(self).accounts@[i as int].owner@));
                    assert(self.accounts@ =~= old(self).accounts@.update(
                        i as int,
                        self.accounts@[i as int],
                    ));
                    self.book = Ghost(self.book@.insert(state.owner, state));
                    lemma_replaced(old(self), self, i as int, state);
                }
                r
            },
        }
    }

    /// Reports `owner`'s account, or a vacant, inactive record when there is none.
    pub fn view_custody_account(&self, owner: &Vec<u8>) -> (r: CustodyAccount)
        requires
            self.wf(),
        ensures
            r@ == view_step(self@, owner@),
    {
        match self.position(owner) {
            None => CustodyAccount::vacant(owner),
            Some(i) => self.accounts[i].snapshot(),
        }
    }
}

/// After slot `i` of `prev` was replaced by an account of the same owner and
/// threshold, with a balance that is not negative, and the book followed, the
/// ledger is well formed again.
proof fn lemma_replaced(prev: &AssetCustodyContract, cur: &AssetCustodyContract, i: int, state: AccountState)
    requires
        prev.wf(),
        0 <= i < prev.accounts@.len(),
        cur.accounts@ == prev.accounts@.update(i, cur.accounts@[i]),
        cur.accounts@[i]@ == state,
        cur.total_accounts == prev.total_accounts,
        cur.book@ == prev.book@.insert(state.owner, state),
        state.owner == prev.accounts@[i]@.owner,
        state.required_signatures == prev.accounts@[i]@.required_signatures,
        state.balance >= 0,
    ensures
        cur.wf(),
        cur@ == (LedgerState { accounts: prev@.accounts.insert(state.owner, state), ..prev@ }),
        state == prev@.accounts[state.owner] ==> cur@ == prev@,
{
    assert forall|k: Seq<u8>| #[trigger] cur.book@.contains_key(k) implies exists|j: int|
        0 <= j < cur.accounts@.len() && #[trigger] cur.accounts@[j].owner@ == k by {
        let j = choose|j: int|
            0 <= j < prev.accounts@.len() && #[trigger] prev.accounts@[j].owner@ == k;
        assert(cur.accounts@[j].owner@ == k);
    }
    if state == prev@.accounts[state.owner] {
        assert(cur.book@ =~= prev.book@);
    }
}

} // verus!
