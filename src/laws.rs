use vstd::prelude::*;

use crate::engine::{accepts, decision_of, Decision, in_range, moved, settled_balance, settled_txn};
use crate::ledger::{Account, Transaction, TxnStatus, TxnType};

verus! {

/// The account as `settle` leaves it, timestamps aside.
pub open spec fn account_after(t: Transaction, a: Account) -> Account {
    Account { balance: settled_balance(t, a) as u64, ..a }
}

/// The account after settling each transaction of `ts` in turn.
pub open spec fn account_after_all(a: Account, ts: Seq<Transaction>) -> Account
    decreases ts.len(),
{
    if ts.len() == 0 {
        a
    } else {
        account_after(ts.last(), account_after_all(a, ts.drop_last()))
    }
}

/// The transaction after being settled against each account of `accounts` in turn.
pub open spec fn txn_after_all(t: Transaction, accounts: Seq<Account>) -> Transaction
    decreases accounts.len(),
{
    if accounts.len() == 0 {
        t
    } else {
        settled_txn(txn_after_all(t, accounts.drop_last()), accounts.last())
    }
}

/// No decision ever asks for a balance below zero: a purchase succeeds only when
/// the balance covers it.
pub proof fn lemma_decision_never_overdraws(t: Transaction, a: Account)
    ensures
        moved(a.balance, decision_of(t, a).delta) >= 0,
        settled_balance(t, a) >= 0,
{
}

/// Whatever sequence of credits and purchases is settled against an account,
/// each decision made along the way, and each balance written, is at least zero.
pub proof fn lemma_no_negative_balance(a: Account, ts: Seq<Transaction>)
    ensures
        forall|i: int|
            0 <= i < ts.len() ==> {
                &&& moved(
                    #[trigger] account_after_all(a, ts.take(i)).balance,
                    decision_of(ts[i], account_after_all(a, ts.take(i))).delta,
                ) >= 0
                &&& settled_balance(ts[i], account_after_all(a, ts.take(i))) >= 0
            },
{
    assert forall|i: int| 0 <= i < ts.len() implies {
        &&& moved(
            #[trigger] account_after_all(a, ts.take(i)).balance,
            decision_of(ts[i], account_after_all(a, ts.take(i))).delta,
        ) >= 0
        &&& settled_balance(ts[i], account_after_all(a, ts.take(i))) >= 0
    } by {
        lemma_decision_never_overdraws(ts[i], account_after_all(a, ts.take(i)));
    }
}

/// A transaction whose currency differs from its account's always settles as
/// failed, and the balance does not move.
pub proof fn lemma_currency_mismatch_fails(t: Transaction, a: Account)
    requires
        t.currency_code@ != a.currency_code@,
    ensures
        decision_of(t, a) == (Decision { status: TxnStatus::Failed, delta: 0 }),
        settled_balance(t, a) == a.balance as int,
        t.status == TxnStatus::Pending ==> settled_txn(t, a).status == TxnStatus::Failed,
{
}

/// Settling a transaction a second time, as a redelivered event does, changes
/// neither the transaction nor the balance: twice ends where once ends.
pub proof fn lemma_redelivery_is_noop(t: Transaction, a: Account)
    ensures
        settled_txn(settled_txn(t, a), account_after(t, a)) == settled_txn(t, a),
        settled_balance(settled_txn(t, a), account_after(t, a)) == settled_balance(t, a),
{
}

/// Once a transaction is terminal, no further settlement, against any accounts,
/// changes it; and the store refuses to write to it.
pub proof fn lemma_terminal_is_final(t: Transaction, accounts: Seq<Account>)
    requires
        t.status.terminal(),
    ensures
        txn_after_all(t, accounts) == t,
        forall|a: Account, b: u64, d: i128| !#[trigger] accepts(t, a, b, d),
    decreases accounts.len(),
{
    if accounts.len() > 0 {
        lemma_terminal_is_final(t, accounts.drop_last());
    }
}

/// Two purchases against one account that together exceed its balance, each
/// of which it covers alone: settled one after the other, in either order, the
/// first succeeds and the second fails. Settled side by side from one snapshot
/// of the account, the second write is refused as a conflict once the first
/// has landed, so both never succeed.
pub proof fn lemma_same_account_purchases_serialize(ta: Transaction, tb: Transaction, a: Account)
    requires
        ta.status == TxnStatus::Pending,
        tb.status == TxnStatus::Pending,
        ta.txn_type == TxnType::Purchase,
        tb.txn_type == TxnType::Purchase,
        ta.currency_code@ == a.currency_code@,
        tb.currency_code@ == a.currency_code@,
        ta.amount <= a.balance,
        tb.amount <= a.balance,
        ta.amount + tb.amount > a.balance,
    ensures
        settled_txn(ta, a).status == TxnStatus::Success,
        settled_txn(tb, account_after(ta, a)).status == TxnStatus::Failed,
        settled_txn(tb, a).status == TxnStatus::Success,
        settled_txn(ta, account_after(tb, a)).status == TxnStatus::Failed,
        !accepts(tb, account_after(ta, a), a.balance, decision_of(tb, a).delta),
        !accepts(ta, account_after(tb, a), a.balance, decision_of(ta, a).delta),
{
}

} // verus!
