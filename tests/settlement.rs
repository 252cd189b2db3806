use payment_service::consumer::{
    decode_event, lane_of, Action, DecodeError, Disposition, Phase, Plan, Settlement, StoreReply,
    TransactionEvent, BACKOFF_STEP_MS,
};
use payment_service::engine::{apply_settlement, decide, settle, ApplyError, Decision, Settled};
use payment_service::ledger::{Account, Transaction, TxnStatus, TxnType};
use payment_service::pipeline::process_event;
use payment_service::store::{LedgerStore, StoreError};

fn txn(id: &str, account: &str, amount: u64, currency: &str, kind: TxnType) -> Transaction {
    Transaction {
        txn_id: id.to_string(),
        account_id: account.to_string(),
        amount,
        currency_code: currency.to_string(),
        txn_type: kind,
        status: TxnStatus::Pending,
        created_at: 1_700_000_000,
    }
}

fn account(id: &str, balance: u64, currency: &str) -> Account {
    Account {
        account_id: id.to_string(),
        user_id: "user-1".to_string(),
        currency_code: currency.to_string(),
        balance,
        locked_balance: 0,
        updated_at: 1_700_000_000,
    }
}

fn event(id: &str, account: &str, amount: u64, kind: TxnType) -> TransactionEvent {
    TransactionEvent {
        txn_id: id.to_string(),
        account_id: account.to_string(),
        amount,
        txn_type: kind,
    }
}

fn balance_of(store: &LedgerStore, id: &str) -> u64 {
    store.find_account(&id.to_string()).unwrap().balance
}

fn status_of(store: &LedgerStore, id: &str) -> TxnStatus {
    store.find_transaction(&id.to_string()).unwrap().status
}

#[test]
fn worked_example_purchase_redelivery_overdraft_credit() {
    let mut store = LedgerStore::new();
    store.add_account(account("acc-1", 10_000, "INR")).unwrap();
    store.add_transaction(txn("tx-a", "acc-1", 8_000, "INR", TxnType::Purchase)).unwrap();
    store.add_transaction(txn("tx-c", "acc-1", 5_000, "INR", TxnType::Purchase)).unwrap();
    store.add_transaction(txn("tx-d", "acc-1", 3_000, "INR", TxnType::Credit)).unwrap();

    let a = process_event(&mut store, event("tx-a", "acc-1", 8_000, TxnType::Purchase), 10);
    assert_eq!(a, Disposition::Settled(TxnStatus::Success));
    assert_eq!(balance_of(&store, "acc-1"), 2_000);

    let b = process_event(&mut store, event("tx-a", "acc-1", 8_000, TxnType::Purchase), 11);
    assert_eq!(b, Disposition::Duplicate);
    assert_eq!(balance_of(&store, "acc-1"), 2_000);
    assert_eq!(status_of(&store, "tx-a"), TxnStatus::Success);

    let c = process_event(&mut store, event("tx-c", "acc-1", 5_000, TxnType::Purchase), 12);
    assert_eq!(c, Disposition::Settled(TxnStatus::Failed));
    assert_eq!(balance_of(&store, "acc-1"), 2_000);

    let d = process_event(&mut store, event("tx-d", "acc-1", 3_000, TxnType::Credit), 13);
    assert_eq!(d, Disposition::Settled(TxnStatus::Success));
    assert_eq!(balance_of(&store, "acc-1"), 5_000);
    assert_eq!(store.find_account(&"acc-1".to_string()).unwrap().updated_at, 13);
}

#[test]
fn balance_never_negative_over_a_sequence() {
    let mut store = LedgerStore::new();
    store.add_account(account("acc-1", 500, "INR")).unwrap();
    let amounts = [300u64, 300, 150, 100, 50, 1];
    let kinds = [TxnType::Purchase, TxnType::Purchase, TxnType::Purchase, TxnType::Credit, TxnType::Purchase, TxnType::Purchase];
    for i in 0..amounts.len() {
        let id = format!("tx-{}", i);
        store.add_transaction(txn(&id, "acc-1", amounts[i], "INR", kinds[i])).unwrap();
        process_event(&mut store, event(&id, "acc-1", amounts[i], kinds[i]), i as i64);
    }
    // 500 - 300 = 200; 300 fails; 200 - 150 = 50; +100 = 150; -50 = 100; -1 = 99
    assert_eq!(balance_of(&store, "acc-1"), 99);
    assert_eq!(status_of(&store, "tx-1"), TxnStatus::Failed);
}

#[test]
fn redelivery_twice_equals_once() {
    let mut t = txn("tx-1", "acc-1", 700, "INR", TxnType::Purchase);
    let mut a = account("acc-1", 1_000, "INR");
    let first = settle(&mut t, &mut a, 5);
    assert_eq!(first, Settled::Done(Decision { status: TxnStatus::Success, delta: -700 }));
    let (t1, b1) = (t.status, a.balance);
    let second = settle(&mut t, &mut a, 6);
    assert_eq!(second, Settled::AlreadyTerminal);
    assert_eq!(t.status, t1);
    assert_eq!(a.balance, b1);
    assert_eq!(a.balance, 300);
    assert_eq!(a.updated_at, 5);
}

#[test]
fn concurrent_purchases_on_one_account_settle_once() {
    let a0 = account("acc-1", 1_000, "INR");
    let mut ta = txn("tx-a", "acc-1", 700, "INR", TxnType::Purchase);
    let mut tb = txn("tx-b", "acc-1", 600, "INR", TxnType::Purchase);
    // Both decided from the same snapshot.
    let da = decide(&ta, &a0);
    let db = decide(&tb, &a0);
    assert_eq!(da.status, TxnStatus::Success);
    assert_eq!(db.status, TxnStatus::Success);
    let mut acc = a0.clone();
    assert_eq!(apply_settlement(&mut ta, &mut acc, da.status, a0.balance, da.delta, 1), Ok(()));
    // The second write was decided from a stale balance and is refused.
    assert_eq!(
        apply_settlement(&mut tb, &mut acc, db.status, a0.balance, db.delta, 2),
        Err(ApplyError::Conflict)
    );
    assert_eq!(tb.status, TxnStatus::Pending);
    // Reloaded and decided again, it fails for want of funds.
    let again = settle(&mut tb, &mut acc, 3);
    assert_eq!(again, Settled::Done(Decision { status: TxnStatus::Failed, delta: 0 }));
    assert_eq!(ta.status, TxnStatus::Success);
    assert_eq!(tb.status, TxnStatus::Failed);
    assert_eq!(acc.balance, 300);
}

#[test]
fn serialized_purchases_in_either_order() {
    for first_a in [true, false] {
        let mut store = LedgerStore::new();
        store.add_account(account("acc-1", 1_000, "INR")).unwrap();
        store.add_transaction(txn("tx-a", "acc-1", 700, "INR", TxnType::Purchase)).unwrap();
        store.add_transaction(txn("tx-b", "acc-1", 600, "INR", TxnType::Purchase)).unwrap();
        let order = if first_a { ["tx-a", "tx-b"] } else { ["tx-b", "tx-a"] };
        let r1 = process_event(&mut store, event(order[0], "acc-1", 0, TxnType::Purchase), 1);
        let r2 = process_event(&mut store, event(order[1], "acc-1", 0, TxnType::Purchase), 2);
        assert_eq!(r1, Disposition::Settled(TxnStatus::Success));
        assert_eq!(r2, Disposition::Settled(TxnStatus::Failed));
    }
}

#[test]
fn currency_mismatch_fails_with_zero_delta() {
    let t = txn("tx-1", "acc-1", 100, "USD", TxnType::Credit);
    let a = account("acc-1", 1_000, "INR");
    assert_eq!(decide(&t, &a), Decision { status: TxnStatus::Failed, delta: 0 });
    let mut t = t;
    let mut a = a;
    assert_eq!(settle(&mut t, &mut a, 9), Settled::Done(Decision { status: TxnStatus::Failed, delta: 0 }));
    assert_eq!(a.balance, 1_000);
    assert_eq!(a.updated_at, 1_700_000_000);
}

#[test]
fn purchase_of_exact_balance_succeeds() {
    let t = txn("tx-1", "acc-1", 1_000, "INR", TxnType::Purchase);
    let a = account("acc-1", 1_000, "INR");
    assert_eq!(decide(&t, &a), Decision { status: TxnStatus::Success, delta: -1_000 });
    let t = txn("tx-1", "acc-1", 1_001, "INR", TxnType::Purchase);
    assert_eq!(decide(&t, &a), Decision { status: TxnStatus::Failed, delta: 0 });
}

#[test]
fn terminal_transaction_is_never_changed() {
    let mut t = txn("tx-1", "acc-1", 100, "INR", TxnType::Credit);
    t.status = TxnStatus::Failed;
    let mut a = account("acc-1", 0, "INR");
    assert_eq!(settle(&mut t, &mut a, 1), Settled::AlreadyTerminal);
    assert_eq!(apply_settlement(&mut t, &mut a, TxnStatus::Success, 0, 100, 1), Err(ApplyError::Conflict));
    assert_eq!(t.status, TxnStatus::Failed);
    assert_eq!(a.balance, 0);
}

#[test]
fn credit_past_the_largest_balance_is_refused() {
    let mut t = txn("tx-1", "acc-1", 2, "INR", TxnType::Credit);
    let mut a = account("acc-1", u64::MAX - 1, "INR");
    assert_eq!(settle(&mut t, &mut a, 1), Settled::OutOfRange);
    assert_eq!(t.status, TxnStatus::Pending);
    assert_eq!(a.balance, u64::MAX - 1);
    assert_eq!(
        apply_settlement(&mut t, &mut a, TxnStatus::Success, u64::MAX - 1, 2, 1),
        Err(ApplyError::OutOfRange)
    );
}

#[test]
fn store_lookups_and_refusals() {
    let mut store = LedgerStore::new();
    store.add_account(account("acc-1", 100, "INR")).unwrap();
    store.add_account(account("acc-2", 100, "INR")).unwrap();
    assert_eq!(store.add_account(account("acc-1", 5, "INR")), Err(StoreError::Duplicate));
    store.add_transaction(txn("tx-1", "acc-1", 10, "INR", TxnType::Purchase)).unwrap();
    assert_eq!(store.add_transaction(txn("tx-1", "acc-1", 10, "INR", TxnType::Purchase)), Err(StoreError::Duplicate));
    assert!(store.find_transaction(&"tx-9".to_string()).is_none());
    assert!(store.find_account(&"acc-9".to_string()).is_none());
    let s = TxnStatus::Success;
    assert_eq!(store.apply_settlement(&"tx-9".to_string(), s, &"acc-1".to_string(), 100, -10, 1), Err(StoreError::TxnNotFound));
    assert_eq!(store.apply_settlement(&"tx-1".to_string(), s, &"acc-9".to_string(), 100, -10, 1), Err(StoreError::AccountNotFound));
    assert_eq!(store.apply_settlement(&"tx-1".to_string(), s, &"acc-2".to_string(), 100, -10, 1), Err(StoreError::WrongAccount));
    assert_eq!(store.apply_settlement(&"tx-1".to_string(), s, &"acc-1".to_string(), 99, -10, 1), Err(StoreError::Conflict));
    assert_eq!(store.apply_settlement(&"tx-1".to_string(), s, &"acc-1".to_string(), 100, -101, 1), Err(StoreError::OutOfRange));
    assert_eq!(balance_of(&store, "acc-1"), 100);
    assert_eq!(store.apply_settlement(&"tx-1".to_string(), s, &"acc-1".to_string(), 100, -10, 1), Ok(()));
    assert_eq!(balance_of(&store, "acc-1"), 90);
    assert_eq!(balance_of(&store, "acc-2"), 100);
    assert_eq!(status_of(&store, "tx-1"), TxnStatus::Success);
}

#[test]
fn pipeline_reports_missing_and_mismatched_rows() {
    let mut store = LedgerStore::new();
    store.add_account(account("acc-1", 100, "INR")).unwrap();
    store.add_account(account("acc-2", 100, "INR")).unwrap();
    store.add_transaction(txn("tx-1", "acc-1", 10, "INR", TxnType::Purchase)).unwrap();
    assert_eq!(process_event(&mut store, event("tx-9", "acc-1", 10, TxnType::Purchase), 1), Disposition::TxnMissing);
    assert_eq!(process_event(&mut store, event("tx-1", "acc-9", 10, TxnType::Purchase), 1), Disposition::AccountMissing);
    assert_eq!(process_event(&mut store, event("tx-1", "acc-2", 10, TxnType::Purchase), 1), Disposition::WrongAccount);
    assert_eq!(status_of(&store, "tx-1"), TxnStatus::Pending);
    assert!(Disposition::TxnMissing.dead_lettered());
    assert!(!Disposition::Duplicate.dead_lettered());
    assert!(!Disposition::Settled(TxnStatus::Failed).dead_lettered());
}

#[test]
fn settlement_retries_faults_with_backoff_then_gives_up() {
    let (mut s, first) = Settlement::start(event("tx-1", "acc-1", 10, TxnType::Purchase));
    assert_eq!(first, Action::Load { delay_ms: 0 });
    for n in 1..=3u64 {
        assert_eq!(s.on_reply(&StoreReply::Fault), Action::Load { delay_ms: BACKOFF_STEP_MS * n });
    }
    assert_eq!(s.on_reply(&StoreReply::Fault), Action::Finish(Disposition::FaultsExhausted));
    assert_eq!(s.phase, Phase::Finished(Disposition::FaultsExhausted));
    // A finished settlement stays finished.
    assert_eq!(s.on_reply(&StoreReply::Applied), Action::Finish(Disposition::FaultsExhausted));
}

#[test]
fn settlement_decides_again_once_after_a_conflict() {
    let (mut s, _) = Settlement::start(event("tx-1", "acc-1", 10, TxnType::Purchase));
    let t = txn("tx-1", "acc-1", 10, "INR", TxnType::Purchase);
    let a = account("acc-1", 100, "INR");
    let plan = Plan { status: TxnStatus::Success, expected_balance: 100, delta: -10 };
    assert_eq!(s.on_reply(&StoreReply::Loaded(Some(t.clone()), Some(a.clone()))), Action::Apply(plan));
    assert_eq!(s.on_reply(&StoreReply::Refused(StoreError::Conflict)), Action::Load { delay_ms: 0 });
    let a2 = account("acc-1", 5, "INR");
    let plan2 = Plan { status: TxnStatus::Failed, expected_balance: 5, delta: 0 };
    assert_eq!(s.on_reply(&StoreReply::Loaded(Some(t.clone()), Some(a2))), Action::Apply(plan2));
    assert_eq!(s.on_reply(&StoreReply::Refused(StoreError::Conflict)), Action::Finish(Disposition::ConflictsExhausted));

    let (mut s, _) = Settlement::start(event("tx-1", "acc-1", 10, TxnType::Purchase));
    s.on_reply(&StoreReply::Loaded(Some(t.clone()), Some(a.clone())));
    assert_eq!(s.on_reply(&StoreReply::Applied), Action::Finish(Disposition::Settled(TxnStatus::Success)));

    let (mut s, _) = Settlement::start(event("tx-1", "acc-1", 10, TxnType::Purchase));
    let mut done = t.clone();
    done.status = TxnStatus::Success;
    assert_eq!(s.on_reply(&StoreReply::Loaded(Some(done), Some(a.clone()))), Action::Finish(Disposition::Duplicate));

    let (mut s, _) = Settlement::start(event("tx-1", "acc-1", 10, TxnType::Purchase));
    assert_eq!(s.on_reply(&StoreReply::Loaded(None, Some(a))), Action::Finish(Disposition::TxnMissing));
}

#[test]
fn decode_event_reads_amount_and_type() {
    let e = decode_event("tx-1".to_string(), "acc-1".to_string(), b"80.00", "purchase").unwrap();
    assert_eq!(e.amount, 8_000);
    assert_eq!(e.txn_type, TxnType::Purchase);
    assert_eq!(e.txn_id, "tx-1");
    assert_eq!(e.account_id, "acc-1");
    let e = decode_event("tx-2".to_string(), "acc-1".to_string(), b"30.5", "credit").unwrap();
    assert_eq!(e.amount, 3_050);
    assert_eq!(e.txn_type, TxnType::Credit);
    assert_eq!(decode_event("t".to_string(), "a".to_string(), b"-1", "credit").unwrap_err(), DecodeError::Amount);
    assert_eq!(decode_event("t".to_string(), "a".to_string(), b"1", "refund").unwrap_err(), DecodeError::TxnType);
}

#[test]
fn lanes_are_stable_per_account() {
    assert_eq!(lane_of("a", 10), 7);
    assert_eq!(lane_of("ab", 10), 5);
    assert_eq!(lane_of("", 10), 0);
    assert_eq!(lane_of("acc-42", 8), lane_of("acc-42", 8));
    for id in ["acc-1", "acc-2", "x", "compte-é"] {
        assert!(lane_of(id, 4) < 4);
    }
}
