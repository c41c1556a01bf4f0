//! Committing a prepared transaction: the row moves to committing, the
//! payee, the system and the second payee are credited, each by a write of
//! its own, and the row moves to committed if all of them went through.

use vstd::prelude::*;

use crate::balance::{payee_bucket, Bucket};
use crate::error::Error;
use crate::id::{sys_id, Id};
use crate::kind::TransactionKind;
use crate::mac::HMacTag;
use crate::store::{MemStore, Reply, ReplyView, Request, RequestView, StoreView, request_view};
use crate::task::{TaskPhase, WalletTask};
use crate::transaction::{Transaction, TransactionView};

verus! {

/// Where the committing of a transaction stands.
#[derive(Clone, Copy, Debug)]
pub enum CommitPhase {
    /// The move from prepared to committing was asked for.
    Marking,
    /// The move did not apply and the status was asked for.
    Rereading,
    /// The payee is being credited.
    Paying,
    /// The system is being credited with its fee.
    Charging,
    /// The second payee is being credited with its share.
    Sharing,
    /// The move from committing to committed was asked for.
    Closing,
    /// That move did not apply and the status was asked for.
    ClosingReread,
    /// The transaction is committed, by this call or before it.
    Succeeded,
    /// The committing gave up.
    Failed(Error),
}

/// The committing of one transaction.
#[derive(Debug)]
pub struct CommitMachine {
    pub phase: CommitPhase,
    pub txn: Transaction,
    /// The write that is under way, or the next one.
    pub task: WalletTask,
    /// Whether the payee's write failed.
    pub payee_failed: bool,
    /// Whether the system's write failed.
    pub system_failed: bool,
    /// Whether the second payee's write failed.
    pub sub_failed: bool,
}

pub ghost struct CommitView {
    pub phase: CommitPhase,
    pub txn: TransactionView,
    pub task: WalletTask,
    pub payee_failed: bool,
    pub system_failed: bool,
    pub sub_failed: bool,
}

impl View for CommitMachine {
    type V = CommitView;

    open spec fn view(&self) -> CommitView {
        CommitView {
            phase: self.phase,
            txn: self.txn@,
            task: self.task,
            payee_failed: self.payee_failed,
            system_failed: self.system_failed,
            sub_failed: self.sub_failed,
        }
    }
}

/// What the payee's wallet gets in its income bucket: the payment where
/// the kind pays into the income, and the system's fee where there is one
/// and the payee is the system itself.
pub open spec fn payee_income(kind: TransactionKind, txn: TransactionView) -> int {
    (if payee_bucket(kind) == Bucket::Income {
        txn.net()
    } else {
        0
    }) + (if txn.payee == sys_id() && txn.sys_fee > 0 {
        txn.sys_fee
    } else {
        0
    })
}

/// The write that credits the payee. A missing wallet is created.
pub open spec fn payee_task(kind: TransactionKind, txn: TransactionView) -> WalletTask {
    let bucket = payee_bucket(kind);
    WalletTask::spec_start(
        txn.payee,
        txn.id,
        if bucket == Bucket::Award { txn.net() as i64 } else { 0 },
        if bucket == Bucket::Topup { txn.net() as i64 } else { 0 },
        payee_income(kind, txn) as i64,
        true,
    ).0
}

/// Whether a number fits a stored column.
pub open spec fn fits_i64(x: int) -> bool {
    i64::MIN <= x <= i64::MAX
}

impl CommitView {
    pub open spec fn fail(self, e: Error) -> (CommitView, Option<RequestView>) {
        (CommitView { phase: CommitPhase::Failed(e), ..self }, None)
    }

    pub open spec fn with_status(self, s: int) -> CommitView {
        CommitView { txn: TransactionView { status: s, ..self.txn }, ..self }
    }

    pub open spec fn status_request(self) -> Option<RequestView> {
        Some(RequestView::GetTransactionStatus { uid: self.txn.uid, id: self.txn.id })
    }

    /// The committing at its start, and its first request: the move from
    /// prepared to committing. The kind must be known, the payee must be
    /// who the kind asks for, and a share must have its receiver.
    pub open spec fn spec_start(txn: TransactionView) -> (CommitView, Option<RequestView>) {
        let kind = TransactionKind::parse(txn.kind);
        let idle = WalletTask::spec_start(txn.payee, txn.id, 0, 0, 0, true).0;
        let m = CommitView {
            phase: CommitPhase::Marking,
            txn,
            task: idle,
            payee_failed: false,
            system_failed: false,
            sub_failed: false,
        };
        if kind is None {
            m.fail(Error::InvalidArgument)
        } else if !(kind->0.system_is_paid() <==> txn.payee == sys_id()) {
            m.fail(Error::InvalidArgument)
        } else if txn.sub_shares > 0 && txn.sub_payee is None {
            m.fail(Error::InvalidArgument)
        } else {
            (
                m,
                Some(
                    RequestView::SetTransactionStatus { uid: txn.uid, id: txn.id, from: 1, to: 2 },
                ),
            )
        }
    }

    /// What follows the move to committing: the payee's write. A
    /// transaction whose numbers leave no payment that a wallet can hold is
    /// given up here, after the move, so that a row that is committed
    /// already is found committed whatever its numbers are.
    pub open spec fn begin_pay(self) -> (CommitView, Option<RequestView>) {
        let kind = TransactionKind::parse(self.txn.kind);
        if kind is None {
            self.fail(Error::InvalidArgument)
        } else if !fits_i64(self.txn.net()) || !fits_i64(payee_income(kind->0, self.txn)) {
            self.fail(Error::Overflow)
        } else {
            let task = payee_task(kind->0, self.txn);
            (
                CommitView { phase: CommitPhase::Paying, task, ..self },
                Some(RequestView::GetWallet { uid: task.uid }),
            )
        }
    }

    /// What follows the three writes: the last move if none of them
    /// failed, else the report of those that did.
    pub open spec fn finish(self) -> (CommitView, Option<RequestView>) {
        if self.payee_failed || self.system_failed || self.sub_failed {
            self.fail(
                Error::CommitPartial {
                    payee: self.payee_failed,
                    system: self.system_failed,
                    sub_payee: self.sub_failed,
                },
            )
        } else {
            (
                CommitView { phase: CommitPhase::Closing, ..self },
                Some(
                    RequestView::SetTransactionStatus {
                        uid: self.txn.uid,
                        id: self.txn.id,
                        from: 2,
                        to: 3,
                    },
                ),
            )
        }
    }

    /// What follows the system's write: the second payee's write where it
    /// has a share.
    pub open spec fn begin_share(self) -> (CommitView, Option<RequestView>) {
        if self.txn.sub_shares > 0 && self.txn.sub_payee is Some {
            let started = WalletTask::spec_start(
                self.txn.sub_payee->0,
                self.txn.id,
                0,
                0,
                self.txn.sub_shares as i64,
                true,
            );
            (CommitView { phase: CommitPhase::Sharing, task: started.0, ..self }, started.1)
        } else {
            self.finish()
        }
    }

    /// What follows the payee's write: the system's write where there is a
    /// fee and the payee is not the system itself.
    pub open spec fn begin_fee(self) -> (CommitView, Option<RequestView>) {
        if self.txn.sys_fee > 0 && self.txn.payee != sys_id() {
            let started = WalletTask::spec_start(
                sys_id(),
                self.txn.id,
                0,
                0,
                self.txn.sys_fee as i64,
                false,
            );
            (CommitView { phase: CommitPhase::Charging, task: started.0, ..self }, started.1)
        } else {
            self.begin_share()
        }
    }

    /// The committing after an answer, and its next request if it goes on.
    pub open spec fn spec_step(self, reply: ReplyView, key: Seq<u8>) -> (
        CommitView,
        Option<RequestView>,
    ) {
        match self.phase {
            CommitPhase::Marking => match reply {
                ReplyView::Applied(applied) => if applied {
                    self.with_status(2).begin_pay()
                } else {
                    (CommitView { phase: CommitPhase::Rereading, ..self }, self.status_request())
                },
                _ => self.fail(Error::StoreUnavailable),
            },
            CommitPhase::Rereading | CommitPhase::ClosingReread => match reply {
                ReplyView::Status(s) => if s == 3 {
                    (CommitView { phase: CommitPhase::Succeeded, ..self.with_status(s) }, None)
                } else {
                    self.with_status(s).fail(Error::StatusConflict)
                },
                ReplyView::NotFound => self.fail(Error::NotFound),
                _ => self.fail(Error::StoreUnavailable),
            },
            CommitPhase::Paying => {
                let stepped = self.task.spec_step(reply, key);
                let m = CommitView { task: stepped.0, ..self };
                match stepped.0.phase {
                    TaskPhase::Succeeded => m.begin_fee(),
                    TaskPhase::Failed(_) => CommitView { payee_failed: true, ..m }.begin_fee(),
                    _ => (m, stepped.1),
                }
            },
            CommitPhase::Charging => {
                let stepped = self.task.spec_step(reply, key);
                let m = CommitView { task: stepped.0, ..self };
                match stepped.0.phase {
                    TaskPhase::Succeeded => m.begin_share(),
                    TaskPhase::Failed(_) => CommitView { system_failed: true, ..m }.begin_share(),
                    _ => (m, stepped.1),
                }
            },
            CommitPhase::Sharing => {
                let stepped = self.task.spec_step(reply, key);
                let m = CommitView { task: stepped.0, ..self };
                match stepped.0.phase {
                    TaskPhase::Succeeded => m.finish(),
                    TaskPhase::Failed(_) => CommitView { sub_failed: true, ..m }.finish(),
                    _ => (m, stepped.1),
                }
            },
            CommitPhase::Closing => match reply {
                ReplyView::Applied(applied) => if applied {
                    (CommitView { phase: CommitPhase::Succeeded, ..self.with_status(3) }, None)
                } else {
                    (
                        CommitView { phase: CommitPhase::ClosingReread, ..self },
                        self.status_request(),
                    )
                },
                _ => self.fail(Error::StoreUnavailable),
            },
            _ => (self, None),
        }
    }

    /// How the committing ended.
    pub open spec fn outcome(self) -> Result<(), Error> {
        match self.phase {
            CommitPhase::Succeeded => Ok(()),
            CommitPhase::Failed(e) => Err(e),
            _ => Err(Error::StoreUnavailable),
        }
    }
}

/// The store and the committing after the store has answered, one after
/// the other, up to `fuel` requests, with nobody else writing.
pub open spec fn commit_run(
    store: StoreView,
    key: Seq<u8>,
    m: CommitView,
    request: Option<RequestView>,
    fuel: nat,
) -> (StoreView, CommitView)
    decreases fuel,
{
    if request is None || fuel == 0 {
        (store, m)
    } else {
        let answered = store.apply(request->0);
        let stepped = m.spec_step(answered.1, key);
        commit_run(answered.0, key, stepped.0, stepped.1, (fuel - 1) as nat)
    }
}

/// More requests than a committing ever makes.
pub const COMMIT_FUEL: u8 = 40;

/// The store, the transaction and the result after a whole committing on a
/// store that nobody else writes to.
pub open spec fn spec_commit(store: StoreView, key: Seq<u8>, txn: TransactionView) -> (
    StoreView,
    TransactionView,
    Result<(), Error>,
) {
    let started = CommitView::spec_start(txn);
    let ended = commit_run(store, key, started.0, started.1, COMMIT_FUEL as nat);
    (ended.0, ended.1.txn, ended.1.outcome())
}

impl CommitMachine {
    /// Begins the committing of a transaction as it was read from the
    /// store. A transaction with a share and nobody to receive it is not
    /// committed at all.
    pub fn start(txn: Transaction) -> (r: (CommitMachine, Option<Request>))
        requires
            txn.sub_shares > 0 ==> txn.sub_payee is Some,
        ensures
            (r.0@, request_view(r.1)) == CommitView::spec_start(txn@),
    {
        let idle = WalletTask::start(txn.payee, txn.id, 0, 0, 0, true).0;
        let mut m = CommitMachine {
            phase: CommitPhase::Marking,
            txn,
            task: idle,
            payee_failed: false,
            system_failed: false,
            sub_failed: false,
        };
        let kind: TransactionKind = match TransactionKind::from_str(m.txn.kind.as_str()) {
            Ok(k) => k,
            Err(_) => {
                m.phase = CommitPhase::Failed(Error::InvalidArgument);
                return (m, None);
            },
        };
        if kind.check_payee(m.txn.payee).is_err() {
            m.phase = CommitPhase::Failed(Error::InvalidArgument);
            return (m, None);
        }
        let request = Request::SetTransactionStatus { uid: m.txn.uid, id: m.txn.id, from: 1, to: 2 };
        (m, Some(request))
    }

    fn give_up(&mut self, e: Error) -> (next: Option<Request>)
        ensures
            (final(self)@, request_view(next)) == old(self)@.fail(e),
    {
        self.phase = CommitPhase::Failed(e);
        None
    }

    fn begin_pay(&mut self) -> (next: Option<Request>)
        ensures
            (final(self)@, request_view(next)) == old(self)@.begin_pay(),
    {
        let kind: TransactionKind = match TransactionKind::from_str(self.txn.kind.as_str()) {
            Ok(k) => k,
            Err(_) => {
                return self.give_up(Error::InvalidArgument);
            },
        };
        let net: i128 = self.txn.amount as i128 - self.txn.sys_fee as i128
            - self.txn.sub_shares as i128;
        let fee: i128 = if self.txn.payee.is_zero() && self.txn.sys_fee > 0 {
            self.txn.sys_fee as i128
        } else {
            0
        };
        let to_income: bool = match kind {
            TransactionKind::Spend | TransactionKind::Sponsor | TransactionKind::Subscribe => true,
            _ => false,
        };
        let income: i128 = if to_income {
            net + fee
        } else {
            fee
        };
        if net < i64::MIN as i128 || net > i64::MAX as i128 || income < i64::MIN as i128 || income
            > i64::MAX as i128 {
            return self.give_up(Error::Overflow);
        }
        let task = match kind {
            TransactionKind::Award => WalletTask::start(
                self.txn.payee,
                self.txn.id,
                net as i64,
                0,
                income as i64,
                true,
            ),
            TransactionKind::Topup | TransactionKind::Refund | TransactionKind::Withdraw => WalletTask::start(
                self.txn.payee,
                self.txn.id,
                0,
                net as i64,
                income as i64,
                true,
            ),
            _ => WalletTask::start(self.txn.payee, self.txn.id, 0, 0, income as i64, true),
        };
        self.task = task.0;
        self.phase = CommitPhase::Paying;
        task.1
    }

    fn ask_status(&self) -> (next: Option<Request>)
        ensures
            request_view(next) == self@.status_request(),
    {
        Some(Request::GetTransactionStatus { uid: self.txn.uid, id: self.txn.id })
    }

    fn finish(&mut self) -> (next: Option<Request>)
        ensures
            (final(self)@, request_view(next)) == old(self)@.finish(),
    {
        if self.payee_failed || self.system_failed || self.sub_failed {
            self.give_up(
                Error::CommitPartial {
                    payee: self.payee_failed,
                    system: self.system_failed,
                    sub_payee: self.sub_failed,
                },
            )
        } else {
            self.phase = CommitPhase::Closing;
            Some(
                Request::SetTransactionStatus { uid: self.txn.uid, id: self.txn.id, from: 2, to: 3 },
            )
        }
    }

    fn begin_share(&mut self) -> (next: Option<Request>)
        ensures
            (final(self)@, request_view(next)) == old(self)@.begin_share(),
    {
        if self.txn.sub_shares > 0 {
            if let Some(sub) = self.txn.sub_payee {
                let started = WalletTask::start(sub, self.txn.id, 0, 0, self.txn.sub_shares, true);
                self.task = started.0;
                self.phase = CommitPhase::Sharing;
                return started.1;
            }
        }
        self.finish()
    }

    fn begin_fee(&mut self) -> (next: Option<Request>)
        ensures
            (final(self)@, request_view(next)) == old(self)@.begin_fee(),
    {
        if self.txn.sys_fee > 0 && !self.txn.payee.is_zero() {
            let started = WalletTask::start(sys_id(), self.txn.id, 0, 0, self.txn.sys_fee, false);
            self.task = started.0;
            self.phase = CommitPhase::Charging;
            started.1
        } else {
            self.begin_share()
        }
    }

    fn reread(&mut self, reply: Reply) -> (next: Option<Request>)
        requires
            old(self).phase is Rereading || old(self).phase is ClosingReread,
        ensures
            (final(self)@, request_view(next)) == old(self)@.spec_step(reply@, Seq::empty()),
    {
        match reply {
            Reply::Status(s) => {
                self.txn.status = s;
                if s == 3 {
                    self.phase = CommitPhase::Succeeded;
                    None
                } else {
                    self.give_up(Error::StatusConflict)
                }
            },
            Reply::NotFound => self.give_up(Error::NotFound),
            _ => self.give_up(Error::StoreUnavailable),
        }
    }

    /// Takes the store's answer to the last request and says what to ask
    /// next; `None` once the committing has ended.
    pub fn step(&mut self, reply: Reply, mac: &HMacTag) -> (next: Option<Request>)
        ensures
            (final(self)@, request_view(next)) == old(self)@.spec_step(reply@, mac@),
    {
        match self.phase {
            CommitPhase::Marking => match reply {
                Reply::Applied(applied) => {
                    if applied {
                        self.txn.status = 2;
                        self.begin_pay()
                    } else {
                        self.phase = CommitPhase::Rereading;
                        self.ask_status()
                    }
                },
                _ => self.give_up(Error::StoreUnavailable),
            },
            CommitPhase::Rereading => self.reread(reply),
            CommitPhase::ClosingReread => self.reread(reply),
            CommitPhase::Paying => {
                let mut task: WalletTask = self.task;
                let next = task.step(reply, mac);
                self.task = task;
                match task.phase {
                    TaskPhase::Succeeded => self.begin_fee(),
                    TaskPhase::Failed(_) => {
                        self.payee_failed = true;
                        self.begin_fee()
                    },
                    _ => next,
                }
            },
            CommitPhase::Charging => {
                let mut task: WalletTask = self.task;
                let next = task.step(reply, mac);
                self.task = task;
                match task.phase {
                    TaskPhase::Succeeded => self.begin_share(),
                    TaskPhase::Failed(_) => {
                        self.system_failed = true;
                        self.begin_share()
                    },
                    _ => next,
                }
            },
            CommitPhase::Sharing => {
                let mut task: WalletTask = self.task;
                let next = task.step(reply, mac);
                self.task = task;
                match task.phase {
                    TaskPhase::Succeeded => self.finish(),
                    TaskPhase::Failed(_) => {
                        self.sub_failed = true;
                        self.finish()
                    },
                    _ => next,
                }
            },
            CommitPhase::Closing => match reply {
                Reply::Applied(applied) => {
                    if applied {
                        self.txn.status = 3;
                        self.phase = CommitPhase::Succeeded;
                        None
                    } else {
                        self.phase = CommitPhase::ClosingReread;
                        self.ask_status()
                    }
                },
                _ => self.give_up(Error::StoreUnavailable),
            },
            _ => None,
        }
    }

    /// How the committing ended.
    pub fn outcome(&self) -> (r: Result<(), Error>)
        ensures
            r == self@.outcome(),
    {
        match self.phase {
            CommitPhase::Succeeded => Ok(()),
            CommitPhase::Failed(e) => Err(e),
            _ => Err(Error::StoreUnavailable),
        }
    }
}

impl Transaction {
    /// Commits the transaction on a store in memory: the whole committing,
    /// request by request, the three writes one after the other.
    pub fn commit(&mut self, db: &mut MemStore, mac: &HMacTag) -> (r: Result<(), Error>)
        requires
            old(db).wf(),
            old(self).sub_shares > 0 ==> old(self).sub_payee is Some,
        ensures
            final(db).wf(),
            (final(db)@, final(self)@, r) == spec_commit(old(db)@, mac@, old(self)@),
    {
        let started = CommitMachine::start(self.clone());
        let mut m: CommitMachine = started.0;
        let mut request: Option<Request> = started.1;
        let mut fuel: u8 = COMMIT_FUEL;
        while fuel > 0 && request.is_some()
            invariant
                db.wf(),
                commit_run(db@, mac@, m@, request_view(request), fuel as nat) == commit_run(
                    old(db)@,
                    mac@,
                    started.0@,
                    request_view(started.1),
                    COMMIT_FUEL as nat,
                ),
            decreases fuel,
        {
            let reply: Reply = db.execute(request.unwrap());
            request = m.step(reply, mac);
            fuel = fuel - 1;
        }
        let r = m.outcome();
        *self = m.txn;
        r
    }
}

} // verus!
