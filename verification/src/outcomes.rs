//! What each operation comes to on a store that nobody else writes to,
//! said in one piece: on which stores it succeeds, which error it gives on
//! the others, and what the store then holds.

use vstd::prelude::*;

use crate::balance::{rollback_bucket, spec_sub_payer_balance};
use crate::cancel::{cancel_run, spec_cancel};
use crate::commit::{
    commit_run, fits_i64, payee_income, payee_task, spec_commit, CommitView, COMMIT_FUEL,
};
use crate::laws::{after_task, at_boundary, lemma_commit_runs_task, task_run};
use crate::store::RequestView;
use crate::task::WalletTask;
use crate::credit::{CreditKind, CreditView};
use crate::credit_save::{credit_run, spec_save};
use crate::error::Error;
use crate::id::{sys_id, Id};
use crate::kind::{spec_fee_and_shares, TransactionKind};
use crate::mac::checksum_ok;
use crate::prepare::{prepare_admits, prepare_run, spec_prepare};
use crate::store::StoreView;
use crate::transaction::TransactionView;
use crate::wallet::WalletView;

verus! {

/// The transaction that a preparation stores: the draft with its
/// identifier, payee, kind and amount, the payer's sequence, the fee and
/// the share, as prepared.
pub open spec fn prepared_transaction(
    w: WalletView,
    txn: TransactionView,
    payee: Id,
    kind: TransactionKind,
    amount: int,
    id: Id,
) -> TransactionView {
    let fees = spec_fee_and_shares(kind, amount, w.credits, txn.sub_payee is Some);
    TransactionView {
        id,
        payee,
        status: 1,
        kind: kind.name(),
        amount,
        sequence: w.sequence,
        sys_fee: fees.0,
        sub_shares: fees.1,
        ..txn
    }
}

/// What a preparation comes to: the store afterwards, the stored
/// transaction where there is one, and the result. It is refused, in this
/// order, where the kind does not admit the draft, where the payer has no
/// wallet, where the wallet's checksum is wrong, where the amount cannot
/// be taken, where the sequence is at its end, and where the identifier is
/// taken; every refusal leaves the store as it was. Else the payer's
/// wallet is written with the amount taken, sealed for the transaction,
/// and the transaction is stored as prepared.
pub open spec fn prepare_outcome(
    store: StoreView,
    key: Seq<u8>,
    txn: TransactionView,
    payee: Id,
    kind: TransactionKind,
    amount: int,
    id: Id,
) -> (StoreView, Option<TransactionView>, Result<(), Error>) {
    if !prepare_admits(txn.uid, txn.sub_payee, payee, kind, amount) {
        (store, None, Err(Error::InvalidArgument))
    } else if !store.wallets.contains_key(txn.uid) {
        (store, None, Err(Error::NotFound))
    } else {
        let w = store.wallets[txn.uid];
        if w.uid != txn.uid {
            (store, None, Err(Error::StoreUnavailable))
        } else if !checksum_ok(key, w) {
            (store, None, Err(Error::ChecksumMismatch))
        } else {
            match spec_sub_payer_balance(kind, w, amount) {
                Err(e) => (store, None, Err(e)),
                Ok(taken) => if w.sequence >= i64::MAX {
                    (store, None, Err(Error::Overflow))
                } else if store.transactions.contains_key((txn.uid, id)) {
                    (store, None, Err(Error::PrepareFailed))
                } else {
                    let stored = prepared_transaction(w, txn, payee, kind, amount, id);
                    (
                        StoreView {
                            wallets: store.wallets.insert(txn.uid, taken.sealed(key, id)),
                            transactions: store.transactions.insert((txn.uid, id), stored),
                            ..store
                        },
                        Some(stored),
                        Ok(()),
                    )
                },
            }
        }
    }
}

/// A preparation comes to what `prepare_outcome` says: the same store, the
/// same result, and on success the same transaction. So it succeeds
/// exactly where the draft is admitted, the payer's wallet is stored with
/// a right checksum, the amount can be taken, and the identifier is free;
/// and a wallet that was tampered with is refused with nothing written.
pub proof fn law_prepare_in_full(
    store: StoreView,
    key: Seq<u8>,
    txn: TransactionView,
    payee: Id,
    kind: TransactionKind,
    amount: int,
    id: Id,
)
    ensures
        ({
            let r = spec_prepare(store, key, txn, payee, kind, amount, id);
            let o = prepare_outcome(store, key, txn, payee, kind, amount, id);
            &&& r.0 == o.0
            &&& r.2 == o.2
            &&& r.2 is Ok ==> Some(r.1) == o.1
        }),
{
    reveal_with_fuel(prepare_run, 6);
    kind.law_parse_name();
    let r = spec_prepare(store, key, txn, payee, kind, amount, id);
    let o = prepare_outcome(store, key, txn, payee, kind, amount, id);
    if o.2 is Ok {
        assert(r.0.wallets =~= o.0.wallets);
        assert(r.0.transactions =~= o.0.transactions);
    }
}

/// What the saving of a credit entry comes to: the store afterwards and
/// the result. An amount that is not positive is refused; an entry for the
/// system, for a user whose credits were never started unless it is an
/// award, or under a key that is taken is left out, and that counts as
/// saved; a user without a wallet is not found. Else the entry is
/// inserted, and the user's credits are raised by its amount, unless they
/// would leave their range.
pub open spec fn save_outcome(store: StoreView, credit: CreditView) -> (
    StoreView,
    Result<(), Error>,
) {
    if credit.amount <= 0 {
        (store, Err(Error::InvalidArgument))
    } else if credit.uid == sys_id() {
        (store, Ok(()))
    } else if !store.wallets.contains_key(credit.uid) {
        (store, Err(Error::NotFound))
    } else {
        let w = store.wallets[credit.uid];
        if w.credits == 0 && credit.kind != CreditKind::Award.name() {
            (store, Ok(()))
        } else if store.credits.contains_key(credit.key()) {
            (store, Ok(()))
        } else {
            let logged = StoreView { credits: store.credits.insert(credit.key(), credit), ..store };
            if w.credits + credit.amount > i64::MAX || w.credits + credit.amount < i64::MIN {
                (logged, Err(Error::Overflow))
            } else {
                (
                    StoreView {
                        wallets: store.wallets.insert(
                            credit.uid,
                            WalletView { credits: w.credits + credit.amount, ..w },
                        ),
                        ..logged
                    },
                    Ok(()),
                )
            }
        }
    }
}

/// The saving of a credit entry comes to what `save_outcome` says.
pub proof fn law_save_in_full(store: StoreView, credit: CreditView)
    ensures
        spec_save(store, credit) == save_outcome(store, credit),
{
    reveal_with_fuel(credit_run, 6);
    let r = spec_save(store, credit);
    let o = save_outcome(store, credit);
    assert(r.0.wallets =~= o.0.wallets);
    assert(r.0.credits =~= o.0.credits);
}

/// The payer's wallet after a cancelling gave the amount back: the amount
/// in the bucket that the kind gives it back to, sealed for the
/// transaction.
pub open spec fn given_back(
    w: WalletView,
    key: Seq<u8>,
    kind: TransactionKind,
    txn: TransactionView,
) -> WalletView {
    w.credited(rollback_bucket(kind), txn.amount).sealed(key, txn.id)
}

/// What a cancelling comes to: the store afterwards, the status that the
/// transaction then has, and the result. Only a transaction of a known
/// kind, held as prepared, with a positive amount is cancelled. A row that
/// is stored as cancelling or cancelled counts as done; any other row that
/// is not stored as prepared is a conflict. Else the row is moved to
/// cancelling, and the payer's wallet must be stored with a right checksum
/// and must be able to hold the amount; it is written, and the row is
/// moved to cancelled.
pub open spec fn cancel_outcome(store: StoreView, key: Seq<u8>, txn: TransactionView) -> (
    StoreView,
    int,
    Result<(), Error>,
) {
    let kind = TransactionKind::parse(txn.kind);
    let k = txn.key();
    if kind is None {
        (store, txn.status, Err(Error::InvalidArgument))
    } else if txn.status != 1 {
        (store, txn.status, Err(Error::StatusConflict))
    } else if txn.amount <= 0 {
        (store, txn.status, Err(Error::InvalidArgument))
    } else if !store.transactions.contains_key(k) {
        (store, txn.status, Err(Error::NotFound))
    } else {
        let row = store.transactions[k];
        if row.status != 1 {
            (
                store,
                row.status,
                if row.status < 0 {
                    Ok(())
                } else {
                    Err(Error::StatusConflict)
                },
            )
        } else {
            let marked = StoreView {
                transactions: store.transactions.insert(k, TransactionView { status: -1, ..row }),
                ..store
            };
            if !store.wallets.contains_key(txn.uid) {
                (marked, -1, Err(Error::NotFound))
            } else {
                let w = store.wallets[txn.uid];
                let back = given_back(w, key, kind->0, txn);
                if w.uid != txn.uid {
                    (marked, -1, Err(Error::StoreUnavailable))
                } else if !checksum_ok(key, w) {
                    (marked, -1, Err(Error::ChecksumMismatch))
                } else if !back.fits() || w.sequence >= i64::MAX {
                    (marked, -1, Err(Error::Overflow))
                } else {
                    (
                        StoreView {
                            wallets: store.wallets.insert(txn.uid, back),
                            transactions: store.transactions.insert(
                                k,
                                TransactionView { status: -2, ..row },
                            ),
                            ..store
                        },
                        -2,
                        Ok(()),
                    )
                }
            }
        }
    }
}

/// A cancelling comes to what `cancel_outcome` says, for a transaction
/// whose numbers fit their columns. So it succeeds exactly where the row
/// is stored as prepared and the payer's wallet can take the amount back,
/// or the row is cancelled already; it writes to no wallet but the
/// payer's, and leaves the payer's credits as they are.
pub proof fn law_cancel_in_full(store: StoreView, key: Seq<u8>, txn: TransactionView)
    requires
        txn.fits(),
        store.wallets.contains_key(txn.uid) ==> store.wallets[txn.uid].fits(),
    ensures
        ({
            let r = spec_cancel(store, key, txn);
            let o = cancel_outcome(store, key, txn);
            &&& r.0 == o.0
            &&& r.1 == (TransactionView { status: o.1, ..txn })
            &&& r.2 == o.2
        }),
{
    if cancel_reaches_the_wallet(store, txn) {
        if store.wallets.contains_key(txn.uid) {
            lemma_cancel_with_wallet(store, key, txn);
        } else {
            lemma_cancel_without_wallet(store, key, txn);
        }
    } else {
        lemma_cancel_early(store, key, txn);
    }
}

/// Whether a cancelling comes as far as the payer's wallet: the
/// transaction is one to cancel and its row is stored as prepared.
pub open spec fn cancel_reaches_the_wallet(store: StoreView, txn: TransactionView) -> bool {
    &&& TransactionKind::parse(txn.kind) is Some
    &&& txn.status == 1
    &&& txn.amount > 0
    &&& store.transactions.contains_key(txn.key())
    &&& store.transactions[txn.key()].status == 1
}

proof fn lemma_cancel_early(store: StoreView, key: Seq<u8>, txn: TransactionView)
    requires
        !cancel_reaches_the_wallet(store, txn),
    ensures
        ({
            let r = spec_cancel(store, key, txn);
            let o = cancel_outcome(store, key, txn);
            &&& r.0 == o.0
            &&& r.1 == (TransactionView { status: o.1, ..txn })
            &&& r.2 == o.2
        }),
{
    reveal_with_fuel(cancel_run, 3);
}

proof fn lemma_cancel_without_wallet(store: StoreView, key: Seq<u8>, txn: TransactionView)
    requires
        cancel_reaches_the_wallet(store, txn),
        !store.wallets.contains_key(txn.uid),
    ensures
        ({
            let r = spec_cancel(store, key, txn);
            let o = cancel_outcome(store, key, txn);
            &&& r.0 == o.0
            &&& r.1 == (TransactionView { status: o.1, ..txn })
            &&& r.2 == o.2
        }),
{
    reveal_with_fuel(cancel_run, 3);
}

#[verifier::rlimit(50)]
proof fn lemma_cancel_with_wallet(store: StoreView, key: Seq<u8>, txn: TransactionView)
    requires
        txn.fits(),
        cancel_reaches_the_wallet(store, txn),
        store.wallets.contains_key(txn.uid),
        store.wallets[txn.uid].fits(),
    ensures
        ({
            let r = spec_cancel(store, key, txn);
            let o = cancel_outcome(store, key, txn);
            &&& r.0 == o.0
            &&& r.1 == (TransactionView { status: o.1, ..txn })
            &&& r.2 == o.2
        }),
{
    let started = crate::cancel::CancelView::spec_start(txn);
    let k = txn.key();
    let kind = TransactionKind::parse(txn.kind)->0;
    let w = store.wallets[txn.uid];
    // The move to cancelling.
    let r1 = store.apply(started.1->0);
    let m1 = started.0.spec_step(r1.1, key);
    // The reading of the wallet.
    let r2 = r1.0.apply(m1.1->0);
    let m2 = m1.0.spec_step(r2.1, key);
    assert(cancel_run(store, key, started.0, started.1, crate::cancel::CANCEL_FUEL as nat)
        == cancel_run(r2.0, key, m2.0, m2.1, (crate::cancel::CANCEL_FUEL - 2) as nat)) by {
        reveal_with_fuel(cancel_run, 3);
    }
    assert(r2.0.wallets == store.wallets);
    if m2.1 is Some {
        // The writing of the wallet and the move to cancelled.
        let r3 = r2.0.apply(m2.1->0);
        let m3 = m2.0.spec_step(r3.1, key);
        let r4 = r3.0.apply(m3.1->0);
        let m4 = m3.0.spec_step(r4.1, key);
        assert(cancel_run(r2.0, key, m2.0, m2.1, (crate::cancel::CANCEL_FUEL - 2) as nat) == (
            r4.0,
            m4.0,
        )) by {
            reveal_with_fuel(cancel_run, 3);
        }
        let o = cancel_outcome(store, key, txn);
        assert(r4.0.wallets =~= o.0.wallets);
        assert(r4.0.transactions =~= o.0.transactions);
    } else {
        assert(cancel_run(r2.0, key, m2.0, m2.1, (crate::cancel::CANCEL_FUEL - 2) as nat) == (
            r2.0,
            m2.0,
        )) by {
            reveal_with_fuel(cancel_run, 2);
        }
        let o = cancel_outcome(store, key, txn);
        assert(r2.0.transactions =~= o.0.transactions);
    }
}

/// The wallet that a user has in the store, or a fresh one where the user
/// has none.
pub open spec fn wallet_or_fresh(store: StoreView, uid: Id) -> WalletView {
    if store.wallets.contains_key(uid) {
        store.wallets[uid]
    } else {
        WalletView::fresh(uid)
    }
}

/// Whether the write of a wallet task goes through: the wallet is stored
/// under its own user with a right checksum, can hold what the task adds,
/// and its sequence is not at its end; or there is no wallet and the task
/// creates one.
pub open spec fn task_ready(store: StoreView, key: Seq<u8>, task: WalletTask) -> bool {
    if store.wallets.contains_key(task.uid) {
        let w = store.wallets[task.uid];
        &&& w.uid == task.uid
        &&& checksum_ok(key, w)
        &&& task.changed(w).fits()
        &&& w.sequence < i64::MAX
    } else {
        task.create
    }
}

/// The store after the write of a wallet task went through: the wallet
/// with the task's amounts added, sealed for the task's transaction.
pub open spec fn task_written(store: StoreView, key: Seq<u8>, task: WalletTask) -> StoreView {
    StoreView {
        wallets: store.wallets.insert(
            task.uid,
            task.changed(wallet_or_fresh(store, task.uid)).sealed(key, task.txn),
        ),
        ..store
    }
}

/// The store after a wallet task: written where the write goes through,
/// else as it was.
pub open spec fn after_write(store: StoreView, key: Seq<u8>, task: WalletTask) -> StoreView {
    if task_ready(store, key, task) {
        task_written(store, key, task)
    } else {
        store
    }
}

/// A wallet task that starts by reading ends within three requests; it
/// succeeds exactly where its write goes through, and then the store holds
/// the written wallet; where it fails it has written nothing.
pub proof fn law_task_in_full(store: StoreView, key: Seq<u8>, task: WalletTask)
    requires
        task.phase is Reading,
    ensures
        ({
            let e = task_run(store, key, task, Some(RequestView::GetWallet { uid: task.uid }), 3);
            &&& e.1.finished()
            &&& e.2 <= 3
            &&& e.1.phase is Succeeded <==> task_ready(store, key, task)
            &&& e.0 == after_write(store, key, task)
        }),
{
    reveal_with_fuel(task_run, 4);
    let e = task_run(store, key, task, Some(RequestView::GetWallet { uid: task.uid }), 3);
    assert(e.0.wallets =~= after_write(store, key, task).wallets);
}

/// The write that credits the system with its fee. A missing wallet is
/// not created.
pub open spec fn fee_task(txn: TransactionView) -> WalletTask {
    WalletTask::spec_start(sys_id(), txn.id, 0, 0, txn.sys_fee as i64, false).0
}

/// The write that credits the second payee with its share. A missing
/// wallet is created.
pub open spec fn share_task(txn: TransactionView) -> WalletTask {
    WalletTask::spec_start(txn.sub_payee->0, txn.id, 0, 0, txn.sub_shares as i64, true).0
}

/// The store with the status of a transaction's row set.
pub open spec fn with_row_status(store: StoreView, k: (Id, Id), status: int) -> StoreView {
    StoreView {
        transactions: store.transactions.insert(
            k,
            TransactionView { status, ..store.transactions[k] },
        ),
        ..store
    }
}

/// What a committing comes to: the store afterwards, the status that the
/// transaction then has, and the result. A transaction of no known kind,
/// with a payee that the kind does not ask for, or with a share and
/// nobody to receive it is refused. A row that is stored as committed
/// counts as done; any other row that is not stored as prepared is a
/// conflict. Else the row is moved to committing; the payee is credited
/// with the payment less fee and share, then the system with the fee where
/// there is one and the payee is not the system, then the second payee
/// with its share where there is one, each if its write goes through and
/// whether or not another failed; and the row is moved to committed if all
/// went through, else the writes that failed are reported and the row
/// stays as committing.
pub open spec fn commit_outcome(store: StoreView, key: Seq<u8>, txn: TransactionView) -> (
    StoreView,
    int,
    Result<(), Error>,
) {
    let kind = TransactionKind::parse(txn.kind);
    let k = txn.key();
    if kind is None || !(kind->0.system_is_paid() <==> txn.payee == sys_id()) || (txn.sub_shares
        > 0 && txn.sub_payee is None) {
        (store, txn.status, Err(Error::InvalidArgument))
    } else if !store.transactions.contains_key(k) {
        (store, txn.status, Err(Error::NotFound))
    } else if store.transactions[k].status != 1 {
        (
            store,
            store.transactions[k].status,
            if store.transactions[k].status == 3 {
                Ok(())
            } else {
                Err(Error::StatusConflict)
            },
        )
    } else {
        let s0 = with_row_status(store, k, 2);
        if !fits_i64(txn.net()) || !fits_i64(payee_income(kind->0, txn)) {
            (s0, 2, Err(Error::Overflow))
        } else {
            let t1 = payee_task(kind->0, txn);
            let ok1 = task_ready(s0, key, t1);
            let s1 = after_write(s0, key, t1);
            let has_fee = txn.sys_fee > 0 && txn.payee != sys_id();
            let ok2 = !has_fee || task_ready(s1, key, fee_task(txn));
            let s2 = if has_fee {
                after_write(s1, key, fee_task(txn))
            } else {
                s1
            };
            let has_share = txn.sub_shares > 0 && txn.sub_payee is Some;
            let ok3 = !has_share || task_ready(s2, key, share_task(txn));
            let s3 = if has_share {
                after_write(s2, key, share_task(txn))
            } else {
                s2
            };
            if ok1 && ok2 && ok3 {
                (with_row_status(s3, k, 3), 3, Ok(()))
            } else {
                (
                    s3,
                    2,
                    Err(Error::CommitPartial { payee: !ok1, system: !ok2, sub_payee: !ok3 }),
                )
            }
        }
    }
}

/// Whether a committing comes as far as the payee's wallet.
pub open spec fn commit_reaches_the_wallets(store: StoreView, txn: TransactionView) -> bool {
    &&& CommitView::spec_start(txn).1 is Some
    &&& store.transactions.contains_key(txn.key())
    &&& store.transactions[txn.key()].status == 1
    &&& fits_i64(txn.net())
    &&& fits_i64(payee_income(TransactionKind::parse(txn.kind)->0, txn))
}

proof fn lemma_commit_early(store: StoreView, key: Seq<u8>, txn: TransactionView)
    requires
        !commit_reaches_the_wallets(store, txn),
    ensures
        ({
            let r = spec_commit(store, key, txn);
            let o = commit_outcome(store, key, txn);
            &&& r.0 == o.0
            &&& r.1 == (TransactionView { status: o.1, ..txn })
            &&& r.2 == o.2
        }),
{
    reveal_with_fuel(commit_run, 3);
    let r = spec_commit(store, key, txn);
    let o = commit_outcome(store, key, txn);
    assert(r.0.transactions =~= o.0.transactions);
}

/// One of the three writes of a committing, from its first request to the
/// request that follows it.
proof fn lemma_commit_stage(
    store: StoreView,
    key: Seq<u8>,
    m: CommitView,
    fuel: nat,
)
    requires
        m.phase is Paying || m.phase is Charging || m.phase is Sharing,
        m.task.phase is Reading,
        fuel >= 3,
    ensures
        ({
            let first = Some(RequestView::GetWallet { uid: m.task.uid });
            let e = task_run(store, key, m.task, first, 3);
            let next = after_task(m, e.1);
            &&& e.2 <= 3
            &&& e.1.phase is Succeeded <==> task_ready(store, key, m.task)
            &&& e.1.phase is Failed <==> !task_ready(store, key, m.task)
            &&& commit_run(store, key, m, first, fuel) == commit_run(
                after_write(store, key, m.task),
                key,
                next.0,
                next.1,
                (fuel - e.2) as nat,
            )
        }),
{
    let first = Some(RequestView::GetWallet { uid: m.task.uid });
    law_task_in_full(store, key, m.task);
    lemma_commit_runs_task(store, key, m, first, 3, fuel);
}

/// The end of a committing: the last move, or the report of what failed.
proof fn lemma_commit_tail(
    store: StoreView,
    key: Seq<u8>,
    m: CommitView,
    request: Option<RequestView>,
    fuel: nat,
)
    requires
        at_boundary(m, request),
        m.phase is Closing || m.phase is Failed,
        store.transactions.contains_key(m.txn.key()),
        store.transactions[m.txn.key()].status == 2,
        fuel >= 1,
    ensures
        ({
            let c = commit_run(store, key, m, request, fuel);
            if m.phase is Closing {
                &&& c.0 == with_row_status(store, m.txn.key(), 3)
                &&& c.1.txn == (TransactionView { status: 3, ..m.txn })
                &&& c.1.outcome() == Ok::<(), Error>(())
            } else {
                &&& c.0 == store
                &&& c.1.txn == m.txn
                &&& c.1.outcome() == Err::<(), Error>(m.phase->Failed_0)
            }
        }),
{
    reveal_with_fuel(commit_run, 3);
    let c = commit_run(store, key, m, request, fuel);
    if m.phase is Closing {
        assert(c.0.transactions =~= with_row_status(store, m.txn.key(), 3).transactions);
    }
}

/// A committing comes to what `commit_outcome` says, for a transaction
/// whose numbers fit their columns. So it succeeds exactly where the row
/// is stored as committed already, or is stored as prepared and each of
/// its writes goes through; and then the payee, the system and the second
/// payee hold exactly what was theirs before and what the transaction
/// credits to them.
pub proof fn law_commit_in_full(store: StoreView, key: Seq<u8>, txn: TransactionView)
    requires
        txn.fits(),
    ensures
        ({
            let r = spec_commit(store, key, txn);
            let o = commit_outcome(store, key, txn);
            &&& r.0 == o.0
            &&& r.1 == (TransactionView { status: o.1, ..txn })
            &&& r.2 == o.2
        }),
{
    if !commit_reaches_the_wallets(store, txn) {
        lemma_commit_early(store, key, txn);
    } else {
        let k = txn.key();
        let started = CommitView::spec_start(txn);
        let marked = store.apply(started.1->0);
        let m1 = started.0.spec_step(marked.1, key);
        let f1: nat = (COMMIT_FUEL - 1) as nat;
        assert(commit_run(store, key, started.0, started.1, COMMIT_FUEL as nat) == commit_run(
            marked.0,
            key,
            m1.0,
            m1.1,
            f1,
        )) by {
            reveal_with_fuel(commit_run, 2);
        }
        let s0 = with_row_status(store, k, 2);
        assert(marked.0.transactions =~= s0.transactions);
        assert(marked.0 == s0);
        // The payee's write.
        lemma_commit_stage(s0, key, m1.0, f1);
        let e1 = task_run(s0, key, m1.0.task, m1.1, 3);
        let s1 = after_write(s0, key, m1.0.task);
        let m2 = after_task(m1.0, e1.1);
        let f2: nat = (f1 - e1.2) as nat;
        if m2.0.phase is Charging {
            // The system's write.
            lemma_commit_stage(s1, key, m2.0, f2);
            let e2 = task_run(s1, key, m2.0.task, m2.1, 3);
            let s2 = after_write(s1, key, m2.0.task);
            let m3 = after_task(m2.0, e2.1);
            let f3: nat = (f2 - e2.2) as nat;
            if m3.0.phase is Sharing {
                // The second payee's write.
                lemma_commit_stage(s2, key, m3.0, f3);
                let e3 = task_run(s2, key, m3.0.task, m3.1, 3);
                let s3 = after_write(s2, key, m3.0.task);
                let m4 = after_task(m3.0, e3.1);
                lemma_commit_tail(s3, key, m4.0, m4.1, (f3 - e3.2) as nat);
            } else {
                lemma_commit_tail(s2, key, m3.0, m3.1, f3);
            }
        } else if m2.0.phase is Sharing {
            lemma_commit_stage(s1, key, m2.0, f2);
            let e3 = task_run(s1, key, m2.0.task, m2.1, 3);
            let s3 = after_write(s1, key, m2.0.task);
            let m4 = after_task(m2.0, e3.1);
            lemma_commit_tail(s3, key, m4.0, m4.1, (f2 - e3.2) as nat);
        } else {
            lemma_commit_tail(s1, key, m2.0, m2.1, f2);
        }
    }
}

} // verus!
