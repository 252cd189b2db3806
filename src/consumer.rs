use vstd::prelude::*;

use crate::decode::{amount_value, parse_amount, parse_txn_type, txn_type_named, well_formed_amount};
use crate::engine::{decide, decision_of, in_range, moved, MAX_BALANCE};
use crate::ledger::{Account, Transaction, TxnStatus, TxnType};
use crate::store::StoreError;

verus! {

/// How many times a settlement refused as a conflict is decided again.
pub const MAX_CONFLICT_RETRIES: u32 = 1;

/// How many times a store fault is retried before the message is dead-lettered.
pub const MAX_FAULT_RETRIES: u32 = 3;

/// Backoff added per consecutive store fault, in milliseconds.
pub const BACKOFF_STEP_MS: u64 = 200;

/// The lane hash of an account identifier: a polynomial hash of its characters,
/// reduced modulo the number of lanes after each step.
pub open spec fn lane_hash(s: Seq<char>, lanes: nat) -> nat
    decreases s.len(),
{
    if s.len() == 0 || lanes == 0 {
        0
    } else {
        ((lane_hash(s.drop_last(), lanes) * 31 + (s.last() as u32) as nat) % lanes) as nat
    }
}

/// The execution lane of an account: every event of one account goes to the
/// same lane, so its settlements never interleave.
pub fn lane_of(account_id: &str, lanes: u64) -> (r: u64)
    requires
        lanes > 0,
    ensures
        r as nat == lane_hash(account_id@, lanes as nat),
        r < lanes,
{
    let n = account_id.unicode_len();
    let mut h: u128 = 0;
    let mut i: usize = 0;
    while i < n
        invariant
            n == account_id@.len(),
            i <= n,
            lanes > 0,
            h < lanes,
            h as nat == lane_hash(account_id@.take(i as int), lanes as nat),
        decreases n - i,
    {
        let c = account_id.get_char(i);
        assert(account_id@.take(i + 1).drop_last() =~= account_id@.take(i as int));
        h = (h * 31 + c as u32 as u128) % lanes as u128;
        i = i + 1;
    }
    assert(account_id@.take(n as int) =~= account_id@);
    h as u64
}

/// A transaction event as carried by the broker. `amount` is in hundredths.
#[derive(Clone, Debug)]
pub struct TransactionEvent {
    pub txn_id: String,
    pub account_id: String,
    pub amount: u64,
    pub txn_type: TxnType,
}

/// Why a message payload could not be read as a transaction event.
#[derive(Clone, Copy, Debug, PartialEq, Eq, Structural)]
pub enum DecodeError {
    /// The amount is not a non-negative decimal with at most two fraction
    /// digits, or does not fit.
    Amount,
    /// The type is neither `credit` nor `purchase`.
    TxnType,
}

/// Builds an event from the fields of a message: the amount as decimal text, the
/// type by name.
pub fn decode_event(txn_id: String, account_id: String, amount: &[u8], txn_type: &str) -> (r: Result<
    TransactionEvent,
    DecodeError,
>)
    ensures
        !(well_formed_amount(amount@) && amount_value(amount@) <= u64::MAX) ==> r == Err::<
            TransactionEvent,
            DecodeError,
        >(DecodeError::Amount),
        well_formed_amount(amount@) && amount_value(amount@) <= u64::MAX && txn_type_named(
            txn_type@,
        ) is None ==> r == Err::<TransactionEvent, DecodeError>(DecodeError::TxnType),
        r is Ok <==> well_formed_amount(amount@) && amount_value(amount@) <= u64::MAX
            && txn_type_named(txn_type@) is Some,
        r matches Ok(e) ==> {
            &&& e.txn_id == txn_id
            &&& e.account_id == account_id
            &&& e.amount == amount_value(amount@)
            &&& Some(e.txn_type) == txn_type_named(txn_type@)
        },
{
    let amount = match parse_amount(amount) {
        Some(v) => v,
        None => return Err(DecodeError::Amount),
    };
    let txn_type = match parse_txn_type(txn_type) {
        Some(k) => k,
        None => return Err(DecodeError::TxnType),
    };
    Ok(TransactionEvent { txn_id, account_id, amount, txn_type })
}

/// How the handling of one message ended. Every disposition lets the consumer
/// advance the offset; all but `Settled` and `Duplicate` are dead-lettered.
#[derive(Clone, Copy, Debug, PartialEq, Eq, Structural)]
pub enum Disposition {
    /// The transaction reached this terminal status.
    Settled(TxnStatus),
    /// The transaction was already terminal: a redelivery, nothing written.
    Duplicate,
    TxnMissing,
    AccountMissing,
    /// The transaction row names another account than the account loaded.
    WrongAccount,
    /// The decision would leave the balance outside the representable range.
    OutOfRange,
    ConflictsExhausted,
    FaultsExhausted,
}

impl Disposition {
    pub open spec fn spec_dead_lettered(self) -> bool {
        !(self is Settled || self is Duplicate)
    }

    /// Whether the message goes to the dead-letter channel.
    pub fn dead_lettered(&self) -> (r: bool)
        ensures
            r == self.spec_dead_lettered(),
    {
        !matches!(self, Disposition::Settled(_) | Disposition::Duplicate)
    }
}

/// A decision ready to be written: the status, the balance it was made from, and
/// the change to that balance.
#[derive(Clone, Copy, Debug, PartialEq, Eq, Structural)]
pub struct Plan {
    pub status: TxnStatus,
    pub expected_balance: u64,
    pub delta: i128,
}

/// What the consumer must do next for a message.
#[derive(Clone, Copy, Debug, PartialEq, Eq, Structural)]
pub enum Action {
    /// Wait `delay_ms`, then load the event's transaction and account.
    Load { delay_ms: u64 },
    /// Write the plan with the store's atomic settlement for the event's
    /// transaction and account.
    Apply(Plan),
    /// Commit the offset; the message is done.
    Finish(Disposition),
}

/// What the store answered to the last action.
#[derive(Clone, Debug)]
pub enum StoreReply {
    Loaded(Option<Transaction>, Option<Account>),
    Applied,
    Refused(StoreError),
    /// An I/O fault or a timeout.
    Fault,
}

#[derive(Clone, Copy, Debug, PartialEq, Eq, Structural)]
pub enum Phase {
    Loading,
    Applying(Plan),
    Finished(Disposition),
}

/// The settlement of one message, from its decoded event to its disposition.
#[derive(Clone, Debug)]
pub struct Settlement {
    pub event: TransactionEvent,
    pub phase: Phase,
    pub conflicts: u32,
    pub faults: u32,
}

/// The plan for a pending transaction loaded with its account.
pub open spec fn plan_for(t: Transaction, a: Account) -> Plan {
    Plan {
        status: decision_of(t, a).status,
        expected_balance: a.balance,
        delta: decision_of(t, a).delta,
    }
}

impl Settlement {
    /// Starts the settlement of a decoded event: the first action loads its rows.
    pub fn start(event: TransactionEvent) -> (r: (Settlement, Action))
        ensures
            r.0.event == event,
            r.0.phase == Phase::Loading,
            r.0.conflicts == 0,
            r.0.faults == 0,
            r.1 == (Action::Load { delay_ms: 0 }),
    {
        (Settlement { event, phase: Phase::Loading, conflicts: 0, faults: 0 }, Action::Load {
            delay_ms: 0,
        })
    }

    fn finish(&mut self, d: Disposition) -> (r: Action)
        ensures
            final(self).phase == Phase::Finished(d),
            final(self).event == old(self).event,
            final(self).conflicts == old(self).conflicts,
            final(self).faults == old(self).faults,
            r == Action::Finish(d),
    {
        self.phase = Phase::Finished(d);
        Action::Finish(d)
    }

    fn on_loaded(&mut self, txn: &Option<Transaction>, account: &Option<Account>) -> (r: Action)
        requires
            old(self).phase == Phase::Loading,
        ensures
            final(self).event == old(self).event,
            final(self).conflicts == old(self).conflicts,
            final(self).faults == old(self).faults,
            txn is None ==> r == Action::Finish(Disposition::TxnMissing),
            txn matches Some(t) ==> {
                &&& t.status.terminal() ==> r == Action::Finish(Disposition::Duplicate)
                &&& !t.status.terminal() && account is None ==> r == Action::Finish(
                    Disposition::AccountMissing,
                )
                &&& account matches Some(a) ==> {
                    &&& !t.status.terminal() && t.account_id@ != a.account_id@ ==> r
                        == Action::Finish(Disposition::WrongAccount)
                    &&& !t.status.terminal() && t.account_id@ == a.account_id@ && !in_range(
                        moved(a.balance, decision_of(*t, *a).delta),
                    ) ==> r == Action::Finish(Disposition::OutOfRange)
                    &&& !t.status.terminal() && t.account_id@ == a.account_id@ && in_range(
                        moved(a.balance, decision_of(*t, *a).delta),
                    ) ==> r == Action::Apply(plan_for(*t, *a)) && final(self).phase
                        == Phase::Applying(plan_for(*t, *a))
                }
            },
            r matches Action::Finish(d) ==> final(self).phase == Phase::Finished(d),
    {
        let t = match txn {
            None => return self.finish(Disposition::TxnMissing),
            Some(t) => t,
        };
        if t.status.is_terminal() {
            return self.finish(Disposition::Duplicate);
        }
        let a = match account {
            None => return self.finish(Disposition::AccountMissing),
            Some(a) => a,
        };
        if t.account_id != a.account_id {
            return self.finish(Disposition::WrongAccount);
        }
        let d = decide(t, a);
        if d.delta > MAX_BALANCE as i128 || d.delta < -(MAX_BALANCE as i128) {
            return self.finish(Disposition::OutOfRange);
        }
        let next: i128 = a.balance as i128 + d.delta;
        if next < 0 || next > MAX_BALANCE as i128 {
            return self.finish(Disposition::OutOfRange);
        }
        let plan = Plan { status: d.status, expected_balance: a.balance, delta: d.delta };
        self.phase = Phase::Applying(plan);
        Action::Apply(plan)
    }

    fn on_conflict(&mut self) -> (r: Action)
        requires
            !(old(self).phase is Finished),
        ensures
            final(self).event == old(self).event,
            final(self).faults == old(self).faults,
            old(self).conflicts >= MAX_CONFLICT_RETRIES ==> r == Action::Finish(
                Disposition::ConflictsExhausted,
            ) && final(self).phase == Phase::Finished(Disposition::ConflictsExhausted)
                && final(self).conflicts == old(self).conflicts,
            old(self).conflicts < MAX_CONFLICT_RETRIES ==> r == (Action::Load { delay_ms: 0 })
                && final(self).phase == Phase::Loading && final(self).conflicts == old(
                self,
            ).conflicts + 1,
    {
        if self.conflicts >= MAX_CONFLICT_RETRIES {
            return self.finish(Disposition::ConflictsExhausted);
        }
        self.conflicts = self.conflicts + 1;
        self.phase = Phase::Loading;
        Action::Load { delay_ms: 0 }
    }

    /// Advances the settlement by the store's answer to the last action.
    ///
    /// Loaded rows: a missing transaction or account, a transaction that is already
    /// terminal (a redelivery) or that belongs to another account ends the message
    /// without a write; otherwise the decision of the settlement engine becomes the
    /// plan to apply. A successful write ends it as `Settled` with the planned
    /// status. A conflict reloads and decides again, at most `MAX_CONFLICT_RETRIES`
    /// times; a fault reloads after a growing backoff, at most `MAX_FAULT_RETRIES`
    /// times. A finished settlement stays finished.
    pub fn on_reply(&mut self, reply: &StoreReply) -> (r: Action)
        ensures
            final(self).event == old(self).event,
            old(self).phase matches Phase::Finished(d) ==> r == Action::Finish(d) && *final(self)
                == *old(self),
            r matches Action::Finish(d) ==> final(self).phase == Phase::Finished(d),
            r matches Action::Apply(p) ==> final(self).phase == Phase::Applying(p),
            r is Load ==> final(self).phase == Phase::Loading,
            old(self).phase == Phase::Loading ==> match reply {
                StoreReply::Loaded(txn, account) => match txn {
                    None => r == Action::Finish(Disposition::TxnMissing),
                    Some(t) => if t.status.terminal() {
                        r == Action::Finish(Disposition::Duplicate)
                    } else {
                        match account {
                            None => r == Action::Finish(Disposition::AccountMissing),
                            Some(a) => if t.account_id@ != a.account_id@ {
                                r == Action::Finish(Disposition::WrongAccount)
                            } else if !in_range(moved(a.balance, decision_of(*t, *a).delta)) {
                                r == Action::Finish(Disposition::OutOfRange)
                            } else {
                                r == Action::Apply(plan_for(*t, *a))
                            },
                        }
                    },
                },
                _ => true,
            },
            old(self).phase matches Phase::Applying(p) ==> (reply is Applied ==> r == Action::Finish(
                Disposition::Settled(p.status),
            )),
            !(old(self).phase is Finished) && reply is Fault ==> {
                &&& old(self).faults >= MAX_FAULT_RETRIES ==> r == Action::Finish(
                    Disposition::FaultsExhausted,
                )
                &&& old(self).faults < MAX_FAULT_RETRIES ==> r == (Action::Load {
                    delay_ms: (BACKOFF_STEP_MS * (old(self).faults + 1)) as u64,
                }) && final(self).faults == old(self).faults + 1
            },
            reply matches StoreReply::Refused(e) ==> !(old(self).phase is Finished) ==> {
                &&& e == StoreError::TxnNotFound ==> r == Action::Finish(Disposition::TxnMissing)
                &&& e == StoreError::AccountNotFound ==> r == Action::Finish(
                    Disposition::AccountMissing,
                )
                &&& e == StoreError::WrongAccount ==> r == Action::Finish(
                    Disposition::WrongAccount,
                )
                &&& e == StoreError::OutOfRange ==> r == Action::Finish(Disposition::OutOfRange)
                &&& (e == StoreError::Conflict || e == StoreError::Duplicate) ==> {
                    &&& old(self).conflicts >= MAX_CONFLICT_RETRIES ==> r == Action::Finish(
                        Disposition::ConflictsExhausted,
                    )
                    &&& old(self).conflicts < MAX_CONFLICT_RETRIES ==> r == (Action::Load {
                        delay_ms: 0,
                    }) && final(self).conflicts == old(self).conflicts + 1
                }
            },
            old(self).phase == Phase::Loading && reply is Applied ==> r == (Action::Load {
                delay_ms: 0,
            }),
            old(self).phase is Applying && reply is Loaded ==> r == (Action::Load { delay_ms: 0 }),
    {
        match self.phase {
            Phase::Finished(d) => return Action::Finish(d),
            _ => {},
        }
        match reply {
            StoreReply::Loaded(txn, account) => {
                if matches!(self.phase, Phase::Loading) {
                    self.on_loaded(txn, account)
                } else {
                    self.phase = Phase::Loading;
                    Action::Load { delay_ms: 0 }
                }
            },
            StoreReply::Applied => match self.phase {
                Phase::Applying(p) => self.finish(Disposition::Settled(p.status)),
                _ => {
                    self.phase = Phase::Loading;
                    Action::Load { delay_ms: 0 }
                },
            },
            StoreReply::Refused(e) => match e {
                StoreError::TxnNotFound => self.finish(Disposition::TxnMissing),
                StoreError::AccountNotFound => self.finish(Disposition::AccountMissing),
                StoreError::WrongAccount => self.finish(Disposition::WrongAccount),
                StoreError::OutOfRange => self.finish(Disposition::OutOfRange),
                StoreError::Conflict | StoreError::Duplicate => self.on_conflict(),
            },
            StoreReply::Fault => {
                if self.faults >= MAX_FAULT_RETRIES {
                    return self.finish(Disposition::FaultsExhausted);
                }
                self.faults = self.faults + 1;
                self.phase = Phase::Loading;
                Action::Load { delay_ms: BACKOFF_STEP_MS * self.faults as u64 }
            },
        }
    }
}

} // verus!
