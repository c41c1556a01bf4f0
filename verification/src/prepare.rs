//! Preparing a transaction: the payer's wallet is read and checked, the
//! amount is taken from it in memory, the transaction row is inserted as a
//! draft, the wallet is written on condition that nobody wrote to it
//! meanwhile, and the draft becomes prepared.

use vstd::prelude::*;

use crate::balance::spec_sub_payer_balance;
use crate::error::Error;
use crate::id::{sys_id, Id};
use crate::kind::{spec_fee_and_shares, TransactionKind};
use crate::mac::{checksum_ok, HMacTag};
use crate::store::{MemStore, Reply, ReplyView, Request, RequestView, StoreView, request_view};
use crate::transaction::{Transaction, TransactionView};
use crate::wallet::{Wallet, WalletView};

verus! {

/// Where the preparation of a transaction stands.
#[derive(Clone, Copy, Debug)]
pub enum PreparePhase {
    /// The payer's wallet was asked for.
    Reading,
    /// The insertion of the draft was asked for.
    Inserting,
    /// The conditional write of the payer's wallet was asked for.
    Writing,
    /// The move of the draft to prepared was asked for.
    Marking,
    /// The move did not apply and the status was asked for.
    Rereading,
    /// The payer's write did not go through and the deletion of the draft
    /// was asked for.
    Deleting,
    /// The transaction is prepared.
    Succeeded,
    /// The preparation gave up.
    Failed(Error),
}

/// The preparation of one transaction.
#[derive(Debug)]
pub struct PrepareMachine {
    pub phase: PreparePhase,
    /// The transaction as far as it is filled in.
    pub txn: Transaction,
    /// The payer's wallet as read, and later with the amount taken.
    pub wallet: Wallet,
}

pub ghost struct PrepareView {
    pub phase: PreparePhase,
    pub txn: TransactionView,
    pub wallet: WalletView,
}

impl View for PrepareMachine {
    type V = PrepareView;

    open spec fn view(&self) -> PrepareView {
        PrepareView { phase: self.phase, txn: self.txn@, wallet: self.wallet@ }
    }
}

/// Whether a transaction of this kind and amount may go from `uid` to
/// `payee` with this second payee: the amount is positive, payer and payee
/// are who the kind asks for, and a second payee is given only where the
/// kind admits one, and is neither the payee, the system nor the payer.
pub open spec fn prepare_admits(
    uid: Id,
    sub_payee: Option<Id>,
    payee: Id,
    kind: TransactionKind,
    amount: int,
) -> bool {
    &&& amount > 0
    &&& (kind.system_pays() <==> uid == sys_id())
    &&& (kind.system_is_paid() <==> payee == sys_id())
    &&& (sub_payee matches Some(s) ==> kind.allows_sub_payee() && s != payee && s != sys_id() && s
        != uid)
}

impl PrepareView {
    pub open spec fn finished(self) -> bool {
        self.phase is Succeeded || self.phase is Failed
    }

    pub open spec fn fail(self, e: Error) -> (PrepareView, Option<RequestView>) {
        (PrepareView { phase: PreparePhase::Failed(e), ..self }, None)
    }

    /// The preparation at its start, and its first request. A draft that
    /// the kind does not admit is refused before anything is asked of the
    /// store.
    pub open spec fn spec_start(
        txn: TransactionView,
        payee: Id,
        kind: TransactionKind,
        amount: int,
        id: Id,
    ) -> (PrepareView, Option<RequestView>) {
        let m = PrepareView {
            phase: PreparePhase::Reading,
            txn,
            wallet: WalletView::fresh(txn.uid),
        };
        if !prepare_admits(txn.uid, txn.sub_payee, payee, kind, amount) {
            m.fail(Error::InvalidArgument)
        } else {
            (
                PrepareView {
                    txn: TransactionView {
                        id,
                        payee,
                        status: 0,
                        kind: kind.name(),
                        amount,
                        ..txn
                    },
                    ..m
                },
                Some(RequestView::GetWallet { uid: txn.uid }),
            )
        }
    }

    /// What follows the reading of the payer's wallet.
    pub open spec fn read(self, w: WalletView, key: Seq<u8>) -> (PrepareView, Option<RequestView>) {
        let kind = TransactionKind::parse(self.txn.kind);
        if kind is None || self.txn.amount <= 0 {
            self.fail(Error::InvalidArgument)
        } else if w.uid != self.txn.uid {
            self.fail(Error::StoreUnavailable)
        } else if !checksum_ok(key, w) {
            self.fail(Error::ChecksumMismatch)
        } else {
            let fees = spec_fee_and_shares(
                kind->0,
                self.txn.amount,
                w.credits,
                self.txn.sub_payee is Some,
            );
            match spec_sub_payer_balance(kind->0, w, self.txn.amount) {
                Err(e) => self.fail(e),
                Ok(v) => if w.sequence >= i64::MAX {
                    self.fail(Error::Overflow)
                } else {
                    let txn = TransactionView {
                        sequence: w.sequence,
                        sys_fee: fees.0,
                        sub_shares: fees.1,
                        ..self.txn
                    };
                    (
                        PrepareView { phase: PreparePhase::Inserting, txn, wallet: v },
                        Some(RequestView::InsertTransaction { txn }),
                    )
                },
            }
        }
    }

    /// The preparation after an answer, and its next request if it goes on.
    pub open spec fn spec_step(self, reply: ReplyView, key: Seq<u8>) -> (
        PrepareView,
        Option<RequestView>,
    ) {
        match self.phase {
            PreparePhase::Reading => match reply {
                ReplyView::Wallet(w) => self.read(w, key),
                ReplyView::NotFound => self.fail(Error::NotFound),
                _ => self.fail(Error::StoreUnavailable),
            },
            PreparePhase::Inserting => match reply {
                ReplyView::Applied(applied) => if applied && self.wallet.sequence >= i64::MAX {
                    self.fail(Error::Overflow)
                } else if applied {
                    let sealed = self.wallet.sealed(key, self.txn.id);
                    (
                        PrepareView { phase: PreparePhase::Writing, wallet: sealed, ..self },
                        Some(
                            RequestView::UpdateBalance {
                                wallet: sealed,
                                expected_sequence: self.wallet.sequence,
                            },
                        ),
                    )
                } else {
                    self.fail(Error::PrepareFailed)
                },
                _ => self.fail(Error::StoreUnavailable),
            },
            PreparePhase::Writing => if reply == ReplyView::Applied(true) {
                (
                    PrepareView { phase: PreparePhase::Marking, ..self },
                    Some(
                        RequestView::SetTransactionStatus {
                            uid: self.txn.uid,
                            id: self.txn.id,
                            from: 0,
                            to: 1,
                        },
                    ),
                )
            } else {
                (
                    PrepareView { phase: PreparePhase::Deleting, ..self },
                    Some(RequestView::DeleteTransaction { uid: self.txn.uid, id: self.txn.id }),
                )
            },
            PreparePhase::Marking => match reply {
                ReplyView::Applied(applied) => if applied {
                    (
                        PrepareView {
                            phase: PreparePhase::Succeeded,
                            txn: TransactionView { status: 1, ..self.txn },
                            ..self
                        },
                        None,
                    )
                } else {
                    (
                        PrepareView { phase: PreparePhase::Rereading, ..self },
                        Some(
                            RequestView::GetTransactionStatus {
                                uid: self.txn.uid,
                                id: self.txn.id,
                            },
                        ),
                    )
                },
                _ => self.fail(Error::StoreUnavailable),
            },
            PreparePhase::Rereading => match reply {
                ReplyView::Status(s) => {
                    let m = PrepareView { txn: TransactionView { status: s, ..self.txn }, ..self };
                    if s >= 1 {
                        (PrepareView { phase: PreparePhase::Succeeded, ..m }, None)
                    } else {
                        m.fail(Error::StatusConflict)
                    }
                },
                ReplyView::NotFound => self.fail(Error::NotFound),
                _ => self.fail(Error::StoreUnavailable),
            },
            PreparePhase::Deleting => if reply is Failed {
                self.fail(Error::StoreUnavailable)
            } else {
                self.fail(Error::PrepareFailed)
            },
            _ => (self, None),
        }
    }

    /// How the preparation ended.
    pub open spec fn outcome(self) -> Result<(), Error> {
        match self.phase {
            PreparePhase::Succeeded => Ok(()),
            PreparePhase::Failed(e) => Err(e),
            _ => Err(Error::StoreUnavailable),
        }
    }
}

/// The store and the preparation after the store has answered, one after
/// the other, up to `fuel` requests, with nobody else writing.
pub open spec fn prepare_run(
    store: StoreView,
    key: Seq<u8>,
    m: PrepareView,
    request: Option<RequestView>,
    fuel: nat,
) -> (StoreView, PrepareView)
    decreases fuel,
{
    if request is None || fuel == 0 {
        (store, m)
    } else {
        let answered = store.apply(request->0);
        let stepped = m.spec_step(answered.1, key);
        prepare_run(answered.0, key, stepped.0, stepped.1, (fuel - 1) as nat)
    }
}

/// More requests than a preparation ever makes.
pub const PREPARE_FUEL: u8 = 8;

/// The store, the transaction and the result after a whole preparation on
/// a store that nobody else writes to.
pub open spec fn spec_prepare(
    store: StoreView,
    key: Seq<u8>,
    txn: TransactionView,
    payee: Id,
    kind: TransactionKind,
    amount: int,
    id: Id,
) -> (StoreView, TransactionView, Result<(), Error>) {
    let started = PrepareView::spec_start(txn, payee, kind, amount, id);
    let ended = prepare_run(store, key, started.0, started.1, PREPARE_FUEL as nat);
    (ended.0, ended.1.txn, ended.1.outcome())
}

impl PrepareMachine {
    /// Begins the preparation of `txn`, which holds the payer, the second
    /// payee if any, the description and the payload, as a transaction of
    /// `kind` over `amount` to `payee`, under the identifier `id`.
    pub fn start(txn: Transaction, payee: Id, kind: TransactionKind, amount: i64, id: Id) -> (r: (
        PrepareMachine,
        Option<Request>,
    ))
        ensures
            (r.0@, request_view(r.1)) == PrepareView::spec_start(
                txn@,
                payee,
                kind,
                amount as int,
                id,
            ),
    {
        let uid: Id = txn.uid;
        let mut m = PrepareMachine {
            phase: PreparePhase::Reading,
            txn,
            wallet: Wallet::with_pk(uid),
        };
        let mut ok: bool = amount > 0 && kind.check_payer(uid).is_ok() && kind.check_payee(
            payee,
        ).is_ok();
        if let Some(s) = m.txn.sub_payee {
            if kind.check_sub_payee(s).is_err() || s == payee || s.is_zero() || s == uid {
                ok = false;
            }
        }
        if !ok {
            m.phase = PreparePhase::Failed(Error::InvalidArgument);
            return (m, None);
        }
        m.txn.id = id;
        m.txn.payee = payee;
        m.txn.status = 0;
        m.txn.kind = kind.to_string();
        m.txn.amount = amount;
        (m, Some(Request::GetWallet { uid }))
    }

    fn give_up(&mut self, e: Error) -> (next: Option<Request>)
        ensures
            (final(self)@, request_view(next)) == old(self)@.fail(e),
    {
        self.phase = PreparePhase::Failed(e);
        None
    }

    fn read_wallet(&mut self, wallet: Wallet, mac: &HMacTag) -> (next: Option<Request>)
        ensures
            (final(self)@, request_view(next)) == old(self)@.read(wallet@, mac@),
    {
        let kind: TransactionKind = match TransactionKind::from_str(self.txn.kind.as_str()) {
            Ok(k) => k,
            Err(_) => {
                return self.give_up(Error::InvalidArgument);
            },
        };
        if self.txn.amount <= 0 {
            return self.give_up(Error::InvalidArgument);
        }
        let mut w: Wallet = wallet;
        if w.uid != self.txn.uid {
            return self.give_up(Error::StoreUnavailable);
        }
        if w.verify_checksum(mac).is_err() {
            return self.give_up(Error::ChecksumMismatch);
        }
        let fees: (i64, i64) = kind.fee_and_shares(
            self.txn.amount,
            w.credits,
            self.txn.sub_payee.is_some(),
        );
        let sequence: i64 = w.sequence;
        match kind.sub_payer_balance(&mut w, self.txn.amount) {
            Err(e) => self.give_up(e),
            Ok(()) => {
                if sequence == i64::MAX {
                    return self.give_up(Error::Overflow);
                }
                self.txn.sequence = sequence;
                self.txn.sys_fee = fees.0;
                self.txn.sub_shares = fees.1;
                self.wallet = w;
                self.phase = PreparePhase::Inserting;
                Some(Request::InsertTransaction { txn: self.txn.clone() })
            },
        }
    }

    /// Takes the store's answer to the last request and says what to ask
    /// next; `None` once the preparation has ended.
    pub fn step(&mut self, reply: Reply, mac: &HMacTag) -> (next: Option<Request>)
        ensures
            (final(self)@, request_view(next)) == old(self)@.spec_step(reply@, mac@),
    {
        match self.phase {
            PreparePhase::Reading => match reply {
                Reply::Wallet(w) => self.read_wallet(w, mac),
                Reply::NotFound => self.give_up(Error::NotFound),
                _ => self.give_up(Error::StoreUnavailable),
            },
            PreparePhase::Inserting => match reply {
                Reply::Applied(applied) => {
                    if applied {
                        let expected: i64 = self.wallet.sequence;
                        if expected == i64::MAX {
                            return self.give_up(Error::Overflow);
                        }
                        self.wallet.next_checksum(mac, self.txn.id);
                        self.phase = PreparePhase::Writing;
                        Some(
                            Request::UpdateBalance {
                                wallet: self.wallet.clone(),
                                expected_sequence: expected,
                            },
                        )
                    } else {
                        self.give_up(Error::PrepareFailed)
                    }
                },
                _ => self.give_up(Error::StoreUnavailable),
            },
            PreparePhase::Writing => {
                let applied: bool = match reply {
                    Reply::Applied(a) => a,
                    _ => false,
                };
                if applied {
                    self.phase = PreparePhase::Marking;
                    Some(
                        Request::SetTransactionStatus {
                            uid: self.txn.uid,
                            id: self.txn.id,
                            from: 0,
                            to: 1,
                        },
                    )
                } else {
                    self.phase = PreparePhase::Deleting;
                    Some(Request::DeleteTransaction { uid: self.txn.uid, id: self.txn.id })
                }
            },
            PreparePhase::Marking => match reply {
                Reply::Applied(applied) => {
                    if applied {
                        self.txn.status = 1;
                        self.phase = PreparePhase::Succeeded;
                        None
                    } else {
                        self.phase = PreparePhase::Rereading;
                        Some(
                            Request::GetTransactionStatus { uid: self.txn.uid, id: self.txn.id },
                        )
                    }
                },
                _ => self.give_up(Error::StoreUnavailable),
            },
            PreparePhase::Rereading => match reply {
                Reply::Status(s) => {
                    self.txn.status = s;
                    if s >= 1 {
                        self.phase = PreparePhase::Succeeded;
                        None
                    } else {
                        self.give_up(Error::StatusConflict)
                    }
                },
                Reply::NotFound => self.give_up(Error::NotFound),
                _ => self.give_up(Error::StoreUnavailable),
            },
            PreparePhase::Deleting => match reply {
                Reply::Failed => self.give_up(Error::StoreUnavailable),
                _ => self.give_up(Error::PrepareFailed),
            },
            _ => None,
        }
    }

    /// How the preparation ended.
    pub fn outcome(&self) -> (r: Result<(), Error>)
        ensures
            r == self@.outcome(),
    {
        match self.phase {
            PreparePhase::Succeeded => Ok(()),
            PreparePhase::Failed(e) => Err(e),
            _ => Err(Error::StoreUnavailable),
        }
    }
}

impl Transaction {
    /// Prepares the transaction on a store in memory under the given
    /// identifier: the whole preparation, request by request.
    pub fn prepare_as(
        &mut self,
        db: &mut MemStore,
        mac: &HMacTag,
        payee: Id,
        kind: TransactionKind,
        amount: i64,
        id: Id,
    ) -> (r: Result<(), Error>)
        requires
            old(db).wf(),
        ensures
            final(db).wf(),
            (final(db)@, final(self)@, r) == spec_prepare(
                old(db)@,
                mac@,
                old(self)@,
                payee,
                kind,
                amount as int,
                id,
            ),
    {
        let started = PrepareMachine::start(self.clone(), payee, kind, amount, id);
        let mut m: PrepareMachine = started.0;
        let mut request: Option<Request> = started.1;
        let mut fuel: u8 = PREPARE_FUEL;
        while fuel > 0 && request.is_some()
            invariant
                db.wf(),
                prepare_run(db@, mac@, m@, request_view(request), fuel as nat) == prepare_run(
                    old(db)@,
                    mac@,
                    started.0@,
                    request_view(started.1),
                    PREPARE_FUEL as nat,
                ),
            decreases fuel,
        {
            let reply: Reply = db.execute(request.unwrap());
            request = m.step(reply, mac);
            fuel = fuel - 1;
        }
        let r = m.outcome();
        *self = m.txn;
        r
    }

    /// Prepares the transaction on a store in memory under a fresh
    /// identifier from the generator. Whatever identifier came, the store
    /// and the transaction are as `spec_prepare` says for it.
    pub fn prepare(
        &mut self,
        db: &mut MemStore,
        mac: &HMacTag,
        payee: Id,
        kind: TransactionKind,
        amount: i64,
    ) -> (r: Result<(), Error>)
        requires
            old(db).wf(),
        ensures
            final(db).wf(),
            exists|id: Id|
                (final(db)@, final(self)@, r) == #[trigger] spec_prepare(
                    old(db)@,
                    mac@,
                    old(self)@,
                    payee,
                    kind,
                    amount as int,
                    id,
                ),
    {
        let id: Id = Id::new();
        self.prepare_as(db, mac, payee, kind, amount, id)
    }
}

} // verus!
