//! One write to one wallet, retried while others win the race: read the
//! wallet, check its checksum, add to its buckets, seal it, and write it on
//! condition that its sequence has not moved.

use vstd::prelude::*;

use crate::balance::{credit_bucket, Bucket};
use crate::error::Error;
use crate::id::Id;
use crate::mac::{checksum_ok, HMacTag};
use crate::store::{Reply, ReplyView, Request, RequestView, request_view};
use crate::wallet::{Wallet, WalletView};

verus! {

/// How often a conditional write to a wallet is tried before the task
/// gives up.
pub const MAX_ATTEMPTS: u8 = 5;

/// Where a wallet task stands.
#[derive(Clone, Copy, Debug)]
pub enum TaskPhase {
    /// The wallet was asked for.
    Reading,
    /// The wallet was missing and its creation was asked for.
    Creating,
    /// The conditional write was asked for.
    Writing,
    /// The write applied.
    Succeeded,
    /// The task gave up.
    Failed(Error),
}

/// A write to one wallet on behalf of one transaction.
#[derive(Clone, Copy, Debug)]
pub struct WalletTask {
    /// The wallet to write to.
    pub uid: Id,
    /// The transaction that the write is made for.
    pub txn: Id,
    /// What to add to the award bucket.
    pub award: i64,
    /// What to add to the top-up bucket.
    pub topup: i64,
    /// What to add to the income bucket.
    pub income: i64,
    /// Whether a missing wallet is created.
    pub create: bool,
    /// How many times the task started over after a conditional write
    /// that did not apply.
    pub attempts: u8,
    pub phase: TaskPhase,
}

impl WalletTask {
    pub open spec fn finished(self) -> bool {
        self.phase is Succeeded || self.phase is Failed
    }

    pub open spec fn fail(self, e: Error) -> (WalletTask, Option<RequestView>) {
        (WalletTask { phase: TaskPhase::Failed(e), ..self }, None)
    }

    /// The wallet with the task's three amounts added.
    pub open spec fn changed(self, w: WalletView) -> WalletView {
        w.credited(Bucket::Award, self.award as int).credited(
            Bucket::Topup,
            self.topup as int,
        ).credited(Bucket::Income, self.income as int)
    }

    /// What the task does with the wallet it has got: it gives up on a
    /// wallet of another user, on a bad checksum and on a number out of
    /// range; else it asks for the sealed wallet to be written where the
    /// stored sequence is still the one it read.
    pub open spec fn write(self, w: WalletView, key: Seq<u8>) -> (WalletTask, Option<RequestView>) {
        if w.uid != self.uid {
            self.fail(Error::StoreUnavailable)
        } else if !checksum_ok(key, w) {
            self.fail(Error::ChecksumMismatch)
        } else if !self.changed(w).fits() || w.sequence >= i64::MAX {
            self.fail(Error::Overflow)
        } else {
            (
                WalletTask { phase: TaskPhase::Writing, ..self },
                Some(
                    RequestView::UpdateBalance {
                        wallet: self.changed(w).sealed(key, self.txn),
                        expected_sequence: w.sequence,
                    },
                ),
            )
        }
    }

    /// The task at its start and its first request: to read the wallet.
    pub open spec fn spec_start(
        uid: Id,
        txn: Id,
        award: i64,
        topup: i64,
        income: i64,
        create: bool,
    ) -> (WalletTask, Option<RequestView>) {
        (
            WalletTask {
                uid,
                txn,
                award,
                topup,
                income,
                create,
                attempts: 0,
                phase: TaskPhase::Reading,
            },
            Some(RequestView::GetWallet { uid }),
        )
    }

    /// The task after an answer, and its next request if it goes on.
    pub open spec fn spec_step(self, reply: ReplyView, key: Seq<u8>) -> (
        WalletTask,
        Option<RequestView>,
    ) {
        match self.phase {
            TaskPhase::Reading => match reply {
                ReplyView::Wallet(w) => self.write(w, key),
                ReplyView::NotFound => if self.create {
                    (
                        WalletTask { phase: TaskPhase::Creating, ..self },
                        Some(RequestView::CreateWallet { uid: self.uid }),
                    )
                } else {
                    self.fail(Error::NotFound)
                },
                _ => self.fail(Error::StoreUnavailable),
            },
            TaskPhase::Creating => match reply {
                ReplyView::Applied(_) => self.write(WalletView::fresh(self.uid), key),
                _ => self.fail(Error::StoreUnavailable),
            },
            TaskPhase::Writing => match reply {
                ReplyView::Applied(applied) => if applied {
                    (WalletTask { phase: TaskPhase::Succeeded, ..self }, None)
                } else if self.attempts + 1 < MAX_ATTEMPTS {
                    (
                        WalletTask {
                            attempts: (self.attempts + 1) as u8,
                            phase: TaskPhase::Reading,
                            ..self
                        },
                        Some(RequestView::GetWallet { uid: self.uid }),
                    )
                } else {
                    self.fail(Error::Contention)
                },
                _ => self.fail(Error::StoreUnavailable),
            },
            _ => (self, None),
        }
    }

    pub fn start(uid: Id, txn: Id, award: i64, topup: i64, income: i64, create: bool) -> (r: (
        WalletTask,
        Option<Request>,
    ))
        ensures
            (r.0, request_view(r.1)) == Self::spec_start(uid, txn, award, topup, income, create),
    {
        (
            WalletTask {
                uid,
                txn,
                award,
                topup,
                income,
                create,
                attempts: 0,
                phase: TaskPhase::Reading,
            },
            Some(Request::GetWallet { uid }),
        )
    }

    fn give_up(&mut self, e: Error) -> (next: Option<Request>)
        ensures
            (*final(self), request_view(next)) == old(self).fail(e),
    {
        self.phase = TaskPhase::Failed(e);
        None
    }

    fn write_wallet(&mut self, wallet: Wallet, mac: &HMacTag) -> (next: Option<Request>)
        ensures
            (*final(self), request_view(next)) == old(self).write(wallet@, mac@),
    {
        let mut w: Wallet = wallet;
        if w.uid != self.uid {
            return self.give_up(Error::StoreUnavailable);
        }
        if w.verify_checksum(mac).is_err() {
            return self.give_up(Error::ChecksumMismatch);
        }
        let expected: i64 = w.sequence;
        let a = credit_bucket(&mut w, Bucket::Award, self.award);
        let t = credit_bucket(&mut w, Bucket::Topup, self.topup);
        let i = credit_bucket(&mut w, Bucket::Income, self.income);
        if a.is_err() || t.is_err() || i.is_err() || expected == i64::MAX {
            return self.give_up(Error::Overflow);
        }
        w.next_checksum(mac, self.txn);
        self.phase = TaskPhase::Writing;
        Some(Request::UpdateBalance { wallet: w, expected_sequence: expected })
    }

    /// Takes the store's answer to the last request and says what to ask
    /// next; `None` once the task has succeeded or given up.
    pub fn step(&mut self, reply: Reply, mac: &HMacTag) -> (next: Option<Request>)
        ensures
            (*final(self), request_view(next)) == old(self).spec_step(reply@, mac@),
    {
        match self.phase {
            TaskPhase::Reading => match reply {
                Reply::Wallet(w) => self.write_wallet(w, mac),
                Reply::NotFound => {
                    if self.create {
                        self.phase = TaskPhase::Creating;
                        Some(Request::CreateWallet { uid: self.uid })
                    } else {
                        self.give_up(Error::NotFound)
                    }
                },
                _ => self.give_up(Error::StoreUnavailable),
            },
            TaskPhase::Creating => match reply {
                Reply::Applied(_) => self.write_wallet(Wallet::with_pk(self.uid), mac),
                _ => self.give_up(Error::StoreUnavailable),
            },
            TaskPhase::Writing => match reply {
                Reply::Applied(applied) => {
                    if applied {
                        self.phase = TaskPhase::Succeeded;
                        None
                    } else if self.attempts < MAX_ATTEMPTS - 1 {
                        self.attempts = self.attempts + 1;
                        self.phase = TaskPhase::Reading;
                        Some(Request::GetWallet { uid: self.uid })
                    } else {
                        self.give_up(Error::Contention)
                    }
                },
                _ => self.give_up(Error::StoreUnavailable),
            },
            _ => None,
        }
    }
}

} // verus!
