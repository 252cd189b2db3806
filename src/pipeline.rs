use vstd::prelude::*;

use crate::consumer::{Action, Disposition, Settlement, StoreReply, TransactionEvent};
use crate::engine::{decision_of, in_range, moved};
use crate::ledger::Transaction;
use crate::store::{account_at, no_account, no_txn, txn_at, LedgerStore};

verus! {

/// Runs the settlement of one event against an in-memory store, from loading
/// its rows to the write, and returns how it ended. Nothing is written unless
/// it ends as `Settled`; a redelivered event, whose transaction is already
/// terminal, ends as `Duplicate`.
pub fn process_event(store: &mut LedgerStore, event: TransactionEvent, now: i64) -> (r: Disposition)
    ensures
        !(r is Settled) ==> *final(store) == *old(store),
        no_txn(old(store).transactions@, event.txn_id@) ==> r == Disposition::TxnMissing,
        forall|i: int|
            txn_at(old(store).transactions@, event.txn_id@, i) ==> {
                let t = old(store).transactions@[i];
                &&& t.status.terminal() ==> r == Disposition::Duplicate
                &&& !t.status.terminal() && no_account(old(store).accounts@, event.account_id@) ==> r
                    == Disposition::AccountMissing
                &&& forall|j: int|
                    account_at(old(store).accounts@, event.account_id@, j) ==> {
                        let a = old(store).accounts@[j];
                        &&& !t.status.terminal() && t.account_id@ != a.account_id@ ==> r
                            == Disposition::WrongAccount
                        &&& !t.status.terminal() && t.account_id@ == a.account_id@ && !in_range(
                            moved(a.balance, decision_of(t, a).delta),
                        ) ==> r == Disposition::OutOfRange
                        &&& !t.status.terminal() && t.account_id@ == a.account_id@ && in_range(
                            moved(a.balance, decision_of(t, a).delta),
                        ) ==> {
                            &&& r == Disposition::Settled(decision_of(t, a).status)
                            &&& final(store).transactions@ == old(store).transactions@.update(
                                i,
                                Transaction { status: decision_of(t, a).status, ..t },
                            )
                            &&& final(store).accounts@[j].balance as int == moved(
                                a.balance,
                                decision_of(t, a).delta,
                            )
                            &&& final(store).accounts@.len() == old(store).accounts@.len()
                            &&& forall|k: int|
                                0 <= k < old(store).accounts@.len() && k != j
                                    ==> final(store).accounts@[k] == old(store).accounts@[k]
                        }
                    }
            },
{
    let txn_id = event.txn_id.clone();
    let account_id = event.account_id.clone();
    let (mut settlement, _) = Settlement::start(event);
    let found = StoreReply::Loaded(store.find_transaction(&txn_id), store.find_account(&account_id));
    let action = settlement.on_reply(&found);
    let plan = match action {
        Action::Finish(d) => return d,
        Action::Apply(p) => p,
        Action::Load { .. } => return Disposition::ConflictsExhausted,
    };
    let reply = match store.apply_settlement(
        &txn_id,
        plan.status,
        &account_id,
        plan.expected_balance,
        plan.delta,
        now,
    ) {
        Ok(()) => StoreReply::Applied,
        Err(e) => StoreReply::Refused(e),
    };
    match settlement.on_reply(&reply) {
        Action::Finish(d) => d,
        _ => Disposition::ConflictsExhausted,
    }
}

} // verus!
