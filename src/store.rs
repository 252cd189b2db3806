use vstd::prelude::*;

use crate::engine::{accepts, apply_settlement as apply_to_rows, in_range, moved, ApplyError};
use crate::ledger::{copy_account, copy_transaction, Account, Transaction, TxnStatus};

verus! {

/// Why the store refused a write.
#[derive(Clone, Copy, Debug, PartialEq, Eq, Structural)]
pub enum StoreError {
    TxnNotFound,
    AccountNotFound,
    /// The transaction belongs to another account than the one named.
    WrongAccount,
    /// The transaction is no longer pending, or the balance moved since it was read.
    Conflict,
    /// The new balance would leave the representable range.
    OutOfRange,
    /// A row with that identifier already exists.
    Duplicate,
}

/// `k` is the first position in `s` of the transaction with identifier `id`.
pub open spec fn txn_at(s: Seq<Transaction>, id: Seq<char>, k: int) -> bool {
    &&& 0 <= k < s.len()
    &&& s[k].txn_id@ == id
    &&& forall|j: int| 0 <= j < k ==> s[j].txn_id@ != id
}

pub open spec fn no_txn(s: Seq<Transaction>, id: Seq<char>) -> bool {
    forall|j: int| 0 <= j < s.len() ==> s[j].txn_id@ != id
}

/// `k` is the first position in `s` of the account with identifier `id`.
pub open spec fn account_at(s: Seq<Account>, id: Seq<char>, k: int) -> bool {
    &&& 0 <= k < s.len()
    &&& s[k].account_id@ == id
    &&& forall|j: int| 0 <= j < k ==> s[j].account_id@ != id
}

pub open spec fn no_account(s: Seq<Account>, id: Seq<char>) -> bool {
    forall|j: int| 0 <= j < s.len() ==> s[j].account_id@ != id
}

/// An in-memory ledger store: the transactions and accounts tables, with
/// lookups by identifier and the one atomic settlement write.
pub struct LedgerStore {
    pub transactions: Vec<Transaction>,
    pub accounts: Vec<Account>,
}

fn position_of_txn(s: &Vec<Transaction>, id: &String) -> (r: Option<usize>)
    ensures
        r matches Some(k) ==> txn_at(s@, id@, k as int),
        r is None ==> no_txn(s@, id@),
{
    let mut i: usize = 0;
    while i < s.len()
        invariant
            i <= s.len(),
            forall|j: int| 0 <= j < i ==> s@[j].txn_id@ != id@,
        decreases s.len() - i,
    {
        if s[i].txn_id == *id {
            return Some(i);
        }
        i = i + 1;
    }
    None
}

fn position_of_account(s: &Vec<Account>, id: &String) -> (r: Option<usize>)
    ensures
        r matches Some(k) ==> account_at(s@, id@, k as int),
        r is None ==> no_account(s@, id@),
{
    let mut i: usize = 0;
    while i < s.len()
        invariant
            i <= s.len(),
            forall|j: int| 0 <= j < i ==> s@[j].account_id@ != id@,
        decreases s.len() - i,
    {
        if s[i].account_id == *id {
            return Some(i);
        }
        i = i + 1;
    }
    None
}

impl LedgerStore {
    /// An empty store.
    pub fn new() -> (r: LedgerStore)
        ensures
            r.transactions@.len() == 0,
            r.accounts@.len() == 0,
    {
        LedgerStore { transactions: Vec::new(), accounts: Vec::new() }
    }

    /// Adds a transaction row, unless one with the same identifier exists.
    pub fn add_transaction(&mut self, t: Transaction) -> (r: Result<(), StoreError>)
        ensures
            r is Ok <==> no_txn(old(self).transactions@, t.txn_id@),
            r is Ok ==> final(self).transactions@ == old(self).transactions@.push(t),
            r is Err ==> r == Err::<(), StoreError>(StoreError::Duplicate) && final(self).transactions@
                == old(self).transactions@,
            final(self).accounts@ == old(self).accounts@,
    {
        match position_of_txn(&self.transactions, &t.txn_id) {
            Some(_) => Err(StoreError::Duplicate),
            None => {
                self.transactions.push(t);
                Ok(())
            },
        }
    }

    /// Adds an account row, unless one with the same identifier exists.
    pub fn add_account(&mut self, a: Account) -> (r: Result<(), StoreError>)
        ensures
            r is Ok <==> no_account(old(self).accounts@, a.account_id@),
            r is Ok ==> final(self).accounts@ == old(self).accounts@.push(a),
            r is Err ==> r == Err::<(), StoreError>(StoreError::Duplicate) && final(self).accounts@
                == old(self).accounts@,
            final(self).transactions@ == old(self).transactions@,
    {
        match position_of_account(&self.accounts, &a.account_id) {
            Some(_) => Err(StoreError::Duplicate),
            None => {
                self.accounts.push(a);
                Ok(())
            },
        }
    }

    /// The transaction with the given identifier, if any.
    pub fn find_transaction(&self, txn_id: &String) -> (r: Option<Transaction>)
        ensures
            r is None <==> no_txn(self.transactions@, txn_id@),
            forall|k: int|
                txn_at(self.transactions@, txn_id@, k) ==> r == Some(self.transactions@[k]),
    {
        match position_of_txn(&self.transactions, txn_id) {
            Some(k) => Some(copy_transaction(&self.transactions[k])),
            None => None,
        }
    }

    /// The account with the given identifier, if any.
    pub fn find_account(&self, account_id: &String) -> (r: Option<Account>)
        ensures
            r is None <==> no_account(self.accounts@, account_id@),
            forall|k: int|
                account_at(self.accounts@, account_id@, k) ==> r == Some(self.accounts@[k]),
    {
        match position_of_account(&self.accounts, account_id) {
            Some(k) => Some(copy_account(&self.accounts[k])),
            None => None,
        }
    }

    /// Writes a settlement: the transaction's new status and the account's balance
    /// change, both or neither. The write is refused with `Conflict` when the
    /// transaction is no longer pending or the balance is no longer
    /// `expected_balance`, the value the decision was made from.
    pub fn apply_settlement(
        &mut self,
        txn_id: &String,
        status: TxnStatus,
        account_id: &String,
        expected_balance: u64,
        delta: i128,
        now: i64,
    ) -> (r: Result<(), StoreError>)
        ensures
            no_txn(old(self).transactions@, txn_id@) ==> r == Err::<(), StoreError>(
                StoreError::TxnNotFound,
            ),
            !no_txn(old(self).transactions@, txn_id@) && no_account(old(self).accounts@, account_id@)
                ==> r == Err::<(), StoreError>(StoreError::AccountNotFound),
            forall|i: int, j: int|
                txn_at(old(self).transactions@, txn_id@, i) && account_at(
                    old(self).accounts@,
                    account_id@,
                    j,
                ) ==> {
                    let t = old(self).transactions@[i];
                    let a = old(self).accounts@[j];
                    &&& t.account_id@ != account_id@ ==> r == Err::<(), StoreError>(
                        StoreError::WrongAccount,
                    )
                    &&& t.account_id@ == account_id@ && !accepts(t, a, expected_balance, delta)
                        ==> r == Err::<(), StoreError>(StoreError::Conflict)
                    &&& t.account_id@ == account_id@ && accepts(t, a, expected_balance, delta)
                        && !in_range(moved(a.balance, delta)) ==> r == Err::<(), StoreError>(
                        StoreError::OutOfRange,
                    )
                    &&& t.account_id@ == account_id@ && accepts(t, a, expected_balance, delta)
                        && in_range(moved(a.balance, delta)) ==> r is Ok
                    &&& r is Ok ==> {
                        &&& final(self).transactions@ == old(self).transactions@.update(
                            i,
                            Transaction { status, ..t },
                        )
                        &&& final(self).accounts@.len() == old(self).accounts@.len()
                        &&& forall|k: int|
                            0 <= k < old(self).accounts@.len() && k != j ==> final(self).accounts@[k]
                                == old(self).accounts@[k]
                        &&& final(self).accounts@[j].balance as int == moved(a.balance, delta)
                        &&& final(self).accounts@[j].account_id == a.account_id
                        &&& final(self).accounts@[j].currency_code == a.currency_code
                    }
                },
            r is Err ==> *final(self) == *old(self),
    {
        let i = match position_of_txn(&self.transactions, txn_id) {
            Some(i) => i,
            None => return Err(StoreError::TxnNotFound),
        };
        let j = match position_of_account(&self.accounts, account_id) {
            Some(j) => j,
            None => return Err(StoreError::AccountNotFound),
        };
        if self.transactions[i].account_id != *account_id {
            return Err(StoreError::WrongAccount);
        }
        let mut t = copy_transaction(&self.transactions[i]);
        let mut a = copy_account(&self.accounts[j]);
        match apply_to_rows(&mut t, &mut a, status, expected_balance, delta, now) {
            Ok(()) => {
                self.transactions.set(i, t);
                self.accounts.set(j, a);
                Ok(())
            },
            Err(ApplyError::Conflict) => Err(StoreError::Conflict),
            Err(ApplyError::OutOfRange) => Err(StoreError::OutOfRange),
        }
    }
}

} // verus!
