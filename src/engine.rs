use vstd::prelude::*;

use crate::ledger::{Account, Transaction, TxnStatus, TxnType};

verus! {

/// Largest balance an account can hold, in minor units.
pub const MAX_BALANCE: u64 = 0xffff_ffff_ffff_ffff;

/// What settling a pending transaction against its account comes to:
/// the terminal status, and the signed change to the account balance.
#[derive(Clone, Copy, Debug, PartialEq, Eq, Structural)]
pub struct Decision {
    pub status: TxnStatus,
    pub delta: i128,
}

/// Why a settlement could not be written.
#[derive(Clone, Copy, Debug, PartialEq, Eq, Structural)]
pub enum ApplyError {
    /// The transaction is no longer pending, or the balance is not the one the
    /// decision was made from.
    Conflict,
    /// The new balance would fall below zero or exceed `MAX_BALANCE`.
    OutOfRange,
}

/// The settlement rule: a currency mismatch fails, a purchase that the balance
/// does not cover fails, anything else succeeds and moves the balance by the amount.
pub open spec fn decision_of(t: Transaction, a: Account) -> Decision {
    if t.currency_code@ != a.currency_code@ {
        Decision { status: TxnStatus::Failed, delta: 0 }
    } else {
        match t.txn_type {
            TxnType::Credit => Decision { status: TxnStatus::Success, delta: t.amount as i128 },
            TxnType::Purchase => if a.balance < t.amount {
                Decision { status: TxnStatus::Failed, delta: 0 }
            } else {
                Decision { status: TxnStatus::Success, delta: (-(t.amount as int)) as i128 }
            },
        }
    }
}

/// The balance that results from moving `balance` by `delta`.
pub open spec fn moved(balance: u64, delta: i128) -> int {
    balance as int + delta as int
}

pub open spec fn in_range(v: int) -> bool {
    0 <= v <= MAX_BALANCE as int
}

/// Decides the outcome of a pending transaction from snapshots of it and of its
/// account. Deterministic and free of side effects.
pub fn decide(t: &Transaction, a: &Account) -> (d: Decision)
    requires
        t.status == TxnStatus::Pending,
        t.account_id@ == a.account_id@,
    ensures
        d == decision_of(*t, *a),
{
    if t.currency_code != a.currency_code {
        return Decision { status: TxnStatus::Failed, delta: 0 };
    }
    match t.txn_type {
        TxnType::Credit => Decision { status: TxnStatus::Success, delta: t.amount as i128 },
        TxnType::Purchase => {
            if a.balance < t.amount {
                Decision { status: TxnStatus::Failed, delta: 0 }
            } else {
                Decision { status: TxnStatus::Success, delta: -(t.amount as i128) }
            }
        },
    }
}

/// Whether a write of `status` and `delta`, decided from `expected_balance`,
/// is accepted by the rows as they stand.
pub open spec fn accepts(t: Transaction, a: Account, expected_balance: u64, delta: i128) -> bool {
    t.status == TxnStatus::Pending && a.balance == expected_balance
}

/// Writes a decision to the transaction and its account as one unit, compare-and-swap
/// style: the write happens only while the transaction is pending and the balance is
/// still `expected_balance`. On any error neither row changes.
pub fn apply_settlement(
    t: &mut Transaction,
    a: &mut Account,
    status: TxnStatus,
    expected_balance: u64,
    delta: i128,
    now: i64,
) -> (r: Result<(), ApplyError>)
    ensures
        !accepts(*old(t), *old(a), expected_balance, delta) ==> r == Err::<(), ApplyError>(
            ApplyError::Conflict,
        ),
        accepts(*old(t), *old(a), expected_balance, delta) && !in_range(
            moved(old(a).balance, delta),
        ) ==> r == Err::<(), ApplyError>(ApplyError::OutOfRange),
        r is Err ==> *final(t) == *old(t) && *final(a) == *old(a),
        r is Ok ==> {
            &&& *final(t) == (Transaction { status, ..*old(t) })
            &&& final(a).balance as int == moved(old(a).balance, delta)
            &&& final(a).updated_at == (if delta == 0 { old(a).updated_at } else { now })
            &&& final(a).account_id == old(a).account_id
            &&& final(a).user_id == old(a).user_id
            &&& final(a).currency_code == old(a).currency_code
            &&& final(a).locked_balance == old(a).locked_balance
        },
        r is Ok <==> accepts(*old(t), *old(a), expected_balance, delta) && in_range(
            moved(old(a).balance, delta),
        ),
{
    if !matches!(t.status, TxnStatus::Pending) || a.balance != expected_balance {
        return Err(ApplyError::Conflict);
    }
    if delta > MAX_BALANCE as i128 || delta < -(MAX_BALANCE as i128) {
        return Err(ApplyError::OutOfRange);
    }
    let next: i128 = a.balance as i128 + delta;
    if next < 0 || next > MAX_BALANCE as i128 {
        return Err(ApplyError::OutOfRange);
    }
    t.status = status;
    if delta != 0 {
        a.balance = next as u64;
        a.updated_at = now;
    }
    Ok(())
}

/// Result of settling one transaction against its account.
#[derive(Clone, Copy, Debug, PartialEq, Eq, Structural)]
pub enum Settled {
    /// The decision was written.
    Done(Decision),
    /// The transaction was already terminal: nothing was written.
    AlreadyTerminal,
    /// The decision would push the balance past `MAX_BALANCE`: nothing was written.
    OutOfRange,
}

/// What `settle` leaves in the transaction row.
pub open spec fn settled_txn(t: Transaction, a: Account) -> Transaction {
    if t.status.terminal() || !in_range(moved(a.balance, decision_of(t, a).delta)) {
        t
    } else {
        Transaction { status: decision_of(t, a).status, ..t }
    }
}

/// What `settle` leaves in the account row (timestamps aside).
pub open spec fn settled_balance(t: Transaction, a: Account) -> int {
    if t.status.terminal() || !in_range(moved(a.balance, decision_of(t, a).delta)) {
        a.balance as int
    } else {
        moved(a.balance, decision_of(t, a).delta)
    }
}

/// Settles a transaction against its account in one step: an already terminal
/// transaction is left alone; a pending one gets the decision of `decide`, written
/// with `apply_settlement`.
pub fn settle(t: &mut Transaction, a: &mut Account, now: i64) -> (r: Settled)
    requires
        old(t).account_id@ == old(a).account_id@,
    ensures
        *final(t) == settled_txn(*old(t), *old(a)),
        final(a).balance as int == settled_balance(*old(t), *old(a)),
        final(a).account_id == old(a).account_id,
        final(a).currency_code == old(a).currency_code,
        final(a).user_id == old(a).user_id,
        final(a).locked_balance == old(a).locked_balance,
        old(t).status.terminal() ==> r == Settled::AlreadyTerminal && *final(a) == *old(a),
        !old(t).status.terminal() && in_range(moved(old(a).balance, decision_of(*old(t), *old(a)).delta))
            ==> r == Settled::Done(decision_of(*old(t), *old(a))),
        !old(t).status.terminal() && !in_range(moved(old(a).balance, decision_of(*old(t), *old(a)).delta))
            ==> r == Settled::OutOfRange && *final(a) == *old(a),
{
    if t.status.is_terminal() {
        return Settled::AlreadyTerminal;
    }
    let d = decide(t, a);
    let expected = a.balance;
    match apply_settlement(t, a, d.status, expected, d.delta, now) {
        Ok(()) => Settled::Done(d),
        Err(_) => Settled::OutOfRange,
    }
}

} // verus!
