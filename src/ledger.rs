use vstd::prelude::*;

verus! {

/// Direction of a ledger transaction: a credit adds to the balance, a purchase draws on it.
#[derive(Clone, Copy, Debug, PartialEq, Eq, Structural)]
pub enum TxnType {
    Credit,
    Purchase,
}

/// Settlement status of a transaction. `Success` and `Failed` are terminal.
#[derive(Clone, Copy, Debug, PartialEq, Eq, Structural)]
pub enum TxnStatus {
    Pending,
    Success,
    Failed,
}

impl TxnStatus {
    pub open spec fn terminal(self) -> bool {
        self != TxnStatus::Pending
    }

    /// True for `Success` and `Failed`.
    pub fn is_terminal(&self) -> (r: bool)
        ensures
            r == self.terminal(),
    {
        !matches!(self, TxnStatus::Pending)
    }
}

/// A transaction row. Amounts are in minor currency units (for instance paise),
/// so every balance computation is exact.
#[derive(Clone, Debug)]
pub struct Transaction {
    pub txn_id: String,
    pub account_id: String,
    pub amount: u64,
    pub currency_code: String,
    pub txn_type: TxnType,
    pub status: TxnStatus,
    /// Creation time, seconds since the Unix epoch.
    pub created_at: i64,
}

/// An account row. `balance` and `locked_balance` are in minor currency units.
#[derive(Clone, Debug)]
pub struct Account {
    pub account_id: String,
    pub user_id: String,
    pub currency_code: String,
    pub balance: u64,
    pub locked_balance: u64,
    /// Time of the last balance mutation, seconds since the Unix epoch.
    pub updated_at: i64,
}

/// Currency of the accounts opened at registration.
pub const OPENING_CURRENCY: &'static str = "INR";

/// The account opened for a newly registered user: in rupees, with the given
/// opening balance and nothing held.
pub fn opening_account(account_id: String, user_id: String, balance: u64, now: i64) -> (r: Account)
    ensures
        r.account_id == account_id,
        r.user_id == user_id,
        r.currency_code@ == OPENING_CURRENCY@,
        r.balance == balance,
        r.locked_balance == 0,
        r.updated_at == now,
{
    Account {
        account_id,
        user_id,
        currency_code: OPENING_CURRENCY.to_owned(),
        balance,
        locked_balance: 0,
        updated_at: now,
    }
}

/// Copies a transaction field by field.
pub fn copy_transaction(t: &Transaction) -> (r: Transaction)
    ensures
        r == *t,
{
    Transaction {
        txn_id: t.txn_id.clone(),
        account_id: t.account_id.clone(),
        amount: t.amount,
        currency_code: t.currency_code.clone(),
        txn_type: t.txn_type,
        status: t.status,
        created_at: t.created_at,
    }
}

/// Copies an account field by field.
pub fn copy_account(a: &Account) -> (r: Account)
    ensures
        r == *a,
{
    Account {
        account_id: a.account_id.clone(),
        user_id: a.user_id.clone(),
        currency_code: a.currency_code.clone(),
        balance: a.balance,
        locked_balance: a.locked_balance,
        updated_at: a.updated_at,
    }
}

} // verus!
