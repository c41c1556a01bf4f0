//! What holds of the ledger on a store that nobody else writes to.

use vstd::prelude::*;

use crate::cancel::{cancel_run, spec_cancel, CancelView, CANCEL_FUEL};
use crate::credit::CreditView;
use crate::credit_save::{credit_run, spec_save, CreditSaveView, CREDIT_FUEL};
use crate::commit::{commit_run, spec_commit, CommitPhase, CommitView, COMMIT_FUEL};
use crate::error::Error;
use crate::id::{sys_id, Id};
use crate::kind::TransactionKind;
use crate::mac::checksum_ok;
use crate::prepare::{prepare_run, spec_prepare, PreparePhase, PrepareView, PREPARE_FUEL};
use crate::store::{ReplyView, RequestView, StoreView};
use crate::task::WalletTask;
use crate::wallet::WalletView;
use crate::transaction::{status_move_allowed, TransactionView};

verus! {

/// The balance that a user has in the store; nothing where there is no
/// wallet.
pub open spec fn balance_of(store: StoreView, uid: Id) -> int {
    if store.wallets.contains_key(uid) {
        store.wallets[uid].balance()
    } else {
        0
    }
}

/// After a successful preparation the transaction is stored as prepared,
/// and the payer's stored wallet names it as its last transaction, has a
/// sequence one above the one the transaction recorded, holds the amount
/// less, and carries the checksum of its contents.
pub proof fn law_prepare_links_wallet(
    store: StoreView,
    key: Seq<u8>,
    txn: TransactionView,
    payee: Id,
    kind: TransactionKind,
    amount: int,
    id: Id,
)
    ensures
        ({
            let r = spec_prepare(store, key, txn, payee, kind, amount, id);
            r.2 is Ok ==> {
                &&& r.1.uid == txn.uid && r.1.id == id && r.1.status == 1
                &&& r.1.kind == kind.name() && r.1.amount == amount && amount > 0
                &&& r.0.transactions.contains_key((txn.uid, id))
                &&& r.0.transactions[(txn.uid, id)] == r.1
                &&& store.wallets.contains_key(txn.uid)
                &&& r.0.wallets.contains_key(txn.uid)
                &&& r.0.wallets[txn.uid].uid == txn.uid
                &&& r.0.wallets[txn.uid].sequence == r.1.sequence + 1
                &&& r.0.wallets[txn.uid].txn == id
                &&& r.0.wallets[txn.uid].balance() == store.wallets[txn.uid].balance() - amount
                &&& checksum_ok(key, r.0.wallets[txn.uid])
            }
        }),
{
    reveal_with_fuel(prepare_run, 6);
}

/// A successful preparation writes to the payer's wallet and to no other,
/// and to no credit entry and no charge; and the transaction that it
/// stores is the draft with the payee, the fee and the share filled in and
/// the payer's sequence recorded.
pub proof fn law_prepare_writes_the_payer_only(
    store: StoreView,
    key: Seq<u8>,
    txn: TransactionView,
    payee: Id,
    kind: TransactionKind,
    amount: int,
    id: Id,
)
    ensures
        ({
            let r = spec_prepare(store, key, txn, payee, kind, amount, id);
            r.2 is Ok ==> {
                &&& r.0.wallets == store.wallets.insert(txn.uid, r.0.wallets[txn.uid])
                &&& r.0.credits == store.credits
                &&& r.0.charges == store.charges
                &&& r.0.transactions == store.transactions.insert((txn.uid, id), r.1)
                &&& r.1.payee == payee
                &&& r.1.sub_payee == txn.sub_payee
                &&& r.1.sequence == store.wallets[txn.uid].sequence
                &&& (r.1.sys_fee, r.1.sub_shares) == crate::kind::spec_fee_and_shares(
                    kind,
                    amount,
                    store.wallets[txn.uid].credits,
                    txn.sub_payee is Some,
                )
            }
        }),
{
    reveal_with_fuel(prepare_run, 6);
    kind.law_parse_name();
}

/// A preparation that fails leaves the store as it was.
pub proof fn law_prepare_failure_writes_nothing(
    store: StoreView,
    key: Seq<u8>,
    txn: TransactionView,
    payee: Id,
    kind: TransactionKind,
    amount: int,
    id: Id,
)
    ensures
        ({
            let r = spec_prepare(store, key, txn, payee, kind, amount, id);
            r.2 is Err ==> r.0 == store
        }),
{
    reveal_with_fuel(prepare_run, 6);
}

/// A successful cancelling of a transaction that is stored as prepared
/// leaves it cancelled and the payer's balance higher by the amount, the
/// payer's sequence one higher, and the transaction as the payer's last.
pub proof fn law_cancel_gives_back(store: StoreView, key: Seq<u8>, txn: TransactionView)
    requires
        store.transactions.contains_key(txn.key()),
        store.transactions[txn.key()].status == 1,
        i64::MIN <= txn.amount <= i64::MAX,
    ensures
        ({
            let c = spec_cancel(store, key, txn);
            c.2 is Ok ==> {
                &&& c.1.status == -2
                &&& c.0.transactions.contains_key(txn.key())
                &&& c.0.transactions[txn.key()].status == -2
                &&& store.wallets.contains_key(txn.uid)
                &&& c.0.wallets.contains_key(txn.uid)
                &&& c.0.wallets[txn.uid].balance() == store.wallets[txn.uid].balance() + txn.amount
                &&& c.0.wallets[txn.uid].sequence == store.wallets[txn.uid].sequence + 1
                &&& c.0.wallets[txn.uid].txn == txn.id
                &&& checksum_ok(key, c.0.wallets[txn.uid])
            }
        }),
{
    reveal_with_fuel(cancel_run, 6);
}

/// Preparing and then cancelling gives the payer's balance back: where both
/// succeed, the balance is what it was before the preparation, whatever the
/// kind, and the payer's sequence has moved by two.
pub proof fn law_prepare_then_cancel_restores_balance(
    store: StoreView,
    key: Seq<u8>,
    txn: TransactionView,
    payee: Id,
    kind: TransactionKind,
    amount: int,
    id: Id,
)
    requires
        i64::MIN <= amount <= i64::MAX,
    ensures
        ({
            let p = spec_prepare(store, key, txn, payee, kind, amount, id);
            let c = spec_cancel(p.0, key, p.1);
            p.2 is Ok && c.2 is Ok ==> {
                &&& c.0.wallets[txn.uid].balance() == store.wallets[txn.uid].balance()
                &&& c.0.wallets[txn.uid].sequence == store.wallets[txn.uid].sequence + 2
                &&& c.1.status == -2
            }
        }),
{
    law_prepare_links_wallet(store, key, txn, payee, kind, amount, id);
    let p = spec_prepare(store, key, txn, payee, kind, amount, id);
    if p.2 is Ok {
        law_cancel_gives_back(p.0, key, p.1);
        reveal_with_fuel(prepare_run, 6);
    }
}

/// Committing is idempotent: on a transaction that is stored as committed
/// it changes nothing in the store, and it succeeds wherever the
/// transaction is one that may be committed at all.
pub proof fn law_commit_is_idempotent(store: StoreView, key: Seq<u8>, txn: TransactionView)
    requires
        store.transactions.contains_key(txn.key()),
        store.transactions[txn.key()].status == 3,
    ensures
        ({
            let c = spec_commit(store, key, txn);
            &&& c.0 == store
            &&& c.2 is Ok <==> CommitView::spec_start(txn).1 is Some
            &&& c.2 is Ok ==> c.1.status == 3
        }),
{
    reveal_with_fuel(commit_run, 3);
}

/// What a committed transaction credits to the wallet of `u`: the payment
/// less fee and share if `u` is the payee, the fee, where there is one, if
/// `u` is the system, the share, where there is one, if `u` is the second
/// payee, and all that apply if `u` is more than one of them.
pub open spec fn credited_to(txn: TransactionView, u: Id) -> int {
    (if u == txn.payee {
        txn.net()
    } else {
        0
    }) + (if u == sys_id() && txn.sys_fee > 0 {
        txn.sys_fee
    } else {
        0
    }) + (if txn.sub_shares > 0 && txn.sub_payee == Some(u) {
        txn.sub_shares
    } else {
        0
    })
}

/// The store and a wallet task after the store has answered, one after
/// the other, up to `fuel` requests, and the number of requests made.
pub open spec fn task_run(
    store: StoreView,
    key: Seq<u8>,
    task: WalletTask,
    request: Option<RequestView>,
    fuel: nat,
) -> (StoreView, WalletTask, nat)
    decreases fuel,
{
    if request is None || fuel == 0 {
        (store, task, 0)
    } else {
        let answered = store.apply(request->0);
        let stepped = task.spec_step(answered.1, key);
        let rest = task_run(answered.0, key, stepped.0, stepped.1, (fuel - 1) as nat);
        (rest.0, rest.1, rest.2 + 1)
    }
}

/// A wallet task that starts by reading ends within three requests. If it
/// succeeds, the wallet's balance is higher by the task's three amounts;
/// if it fails, no balance has changed. It touches no wallet but its own
/// and no other table.
pub proof fn lemma_task_effect(store: StoreView, key: Seq<u8>, task: WalletTask, u: Id)
    requires
        task.phase is Reading,
    ensures
        ({
            let e = task_run(store, key, task, Some(RequestView::GetWallet { uid: task.uid }), 3);
            &&& e.1.finished()
            &&& 1 <= e.2 <= 3
            &&& e.0.transactions == store.transactions
            &&& e.0.credits == store.credits
            &&& e.0.charges == store.charges
            &&& balance_of(e.0, u) == balance_of(store, u) + (if e.1.phase is Succeeded && u
                == task.uid {
                task.award + task.topup + task.income
            } else {
                0
            })
        }),
{
    reveal_with_fuel(task_run, 4);
}

/// The committing after one of its three writes has ended, and its next
/// request.
pub open spec fn after_task(m: CommitView, done: WalletTask) -> (CommitView, Option<RequestView>) {
    let d = CommitView { task: done, ..m };
    let failed = done.phase is Failed;
    match m.phase {
        CommitPhase::Paying => CommitView { payee_failed: m.payee_failed || failed, ..d }.begin_fee(),
        CommitPhase::Charging => CommitView {
            system_failed: m.system_failed || failed,
            ..d
        }.begin_share(),
        CommitPhase::Sharing => CommitView { sub_failed: m.sub_failed || failed, ..d }.finish(),
        _ => (m, None),
    }
}

/// While one of its three writes is under way, the committing does what
/// the write's task does, and goes on from where the task ended.
pub proof fn lemma_commit_runs_task(
    store: StoreView,
    key: Seq<u8>,
    m: CommitView,
    request: Option<RequestView>,
    steps: nat,
    fuel: nat,
)
    requires
        m.phase is Paying || m.phase is Charging || m.phase is Sharing,
        request is Some,
        !m.task.finished(),
        fuel >= steps,
        task_run(store, key, m.task, request, steps).1.finished(),
    ensures
        ({
            let e = task_run(store, key, m.task, request, steps);
            let next = after_task(m, e.1);
            commit_run(store, key, m, request, fuel) == commit_run(
                e.0,
                key,
                next.0,
                next.1,
                (fuel - e.2) as nat,
            )
        }),
    decreases steps,
{
    reveal_with_fuel(task_run, 2);
    reveal_with_fuel(commit_run, 2);
    if steps > 0 {
        let answered = store.apply(request->0);
        let stepped = m.task.spec_step(answered.1, key);
        if !stepped.0.finished() {
            lemma_commit_runs_task(
                answered.0,
                key,
                CommitView { task: stepped.0, ..m },
                stepped.1,
                (steps - 1) as nat,
                (fuel - 1) as nat,
            );
        }
    }
}

/// What a wallet task adds to the balance of `u`.
pub open spec fn task_part(task: WalletTask, u: Id) -> int {
    if u == task.uid {
        task.award + task.topup + task.income
    } else {
        0
    }
}

/// What the writes of a committing that are still to come add to the
/// balance of `u`, the one under way included.
pub open spec fn still_to_credit(m: CommitView, u: Id) -> int {
    let fee = if m.txn.sys_fee > 0 && m.txn.payee != sys_id() && u == sys_id() {
        m.txn.sys_fee
    } else {
        0
    };
    let share = if m.txn.sub_shares > 0 && m.txn.sub_payee == Some(u) {
        m.txn.sub_shares
    } else {
        0
    };
    match m.phase {
        CommitPhase::Paying => task_part(m.task, u) + fee + share,
        CommitPhase::Charging => task_part(m.task, u) + share,
        CommitPhase::Sharing => task_part(m.task, u),
        _ => 0,
    }
}

/// How many of the three writes may still come.
pub open spec fn writes_left(m: CommitView) -> nat {
    match m.phase {
        CommitPhase::Paying => 3,
        CommitPhase::Charging => 2,
        CommitPhase::Sharing => 1,
        _ => 0,
    }
}

/// Whether a committing stands between two of its writes, or before its
/// last move, or has given up, with the request that belongs to it.
pub open spec fn at_boundary(m: CommitView, request: Option<RequestView>) -> bool {
    match m.phase {
        CommitPhase::Paying | CommitPhase::Charging | CommitPhase::Sharing => m.task.phase
            is Reading && request == Some(RequestView::GetWallet { uid: m.task.uid }),
        CommitPhase::Closing => !m.payee_failed && !m.system_failed && !m.sub_failed && request
            == Some(
            RequestView::SetTransactionStatus { uid: m.txn.uid, id: m.txn.id, from: 2, to: 3 },
        ),
        CommitPhase::Failed(_) => request is None,
        _ => false,
    }
}

/// Whether a committing has ended.
pub open spec fn commit_ended(m: CommitView) -> bool {
    m.phase is Succeeded || m.phase is Failed
}

/// From any point between its writes, a committing ends, and one that ends well has
/// moved the row to committed and has raised every balance by what was
/// still to be credited to it.
pub proof fn lemma_commit_from(
    store: StoreView,
    key: Seq<u8>,
    m: CommitView,
    request: Option<RequestView>,
    fuel: nat,
    u: Id,
)
    requires
        at_boundary(m, request),
        m.txn.fits(),
        store.transactions.contains_key(m.txn.key()),
        store.transactions[m.txn.key()].status == 2,
        fuel >= 3 * writes_left(m) + 1,
    ensures
        commit_ended(commit_run(store, key, m, request, fuel).1),
        ({
            let c = commit_run(store, key, m, request, fuel);
            c.1.outcome() is Ok ==> {
                &&& !m.payee_failed && !m.system_failed && !m.sub_failed
                &&& c.1.txn.status == 3
                &&& c.0.transactions.contains_key(m.txn.key())
                &&& c.0.transactions[m.txn.key()] == (TransactionView {
                    status: 3,
                    ..store.transactions[m.txn.key()]
                })
                &&& balance_of(c.0, u) == balance_of(store, u) + still_to_credit(m, u)
            }
        }),
    decreases writes_left(m),
{
    if writes_left(m) == 0 {
        reveal_with_fuel(commit_run, 3);
    } else {
        lemma_task_effect(store, key, m.task, u);
        let e = task_run(store, key, m.task, request, 3);
        lemma_commit_runs_task(store, key, m, request, 3, fuel);
        let next = after_task(m, e.1);
        lemma_commit_from(e.0, key, next.0, next.1, (fuel - e.2) as nat, u);
    }
}

/// What a transaction credits adds up to its amount: where fee and share
/// are not negative and a share has its receiver, the payee, the system
/// and the second payee, each counted once, are credited the amount in
/// all, and nobody else is credited anything.
pub proof fn law_credits_add_up(txn: TransactionView, u: Id)
    requires
        txn.sys_fee >= 0,
        txn.sub_shares >= 0,
        txn.sub_shares > 0 ==> txn.sub_payee is Some,
    ensures
        credited_to(txn, txn.payee) + (if sys_id() != txn.payee {
            credited_to(txn, sys_id())
        } else {
            0
        }) + (if txn.sub_payee is Some && txn.sub_payee->0 != txn.payee && txn.sub_payee->0
            != sys_id() {
            credited_to(txn, txn.sub_payee->0)
        } else {
            0
        }) == txn.amount,
        u != txn.payee && u != sys_id() && txn.sub_payee != Some(u) ==> credited_to(txn, u) == 0,
{
}

/// Funds are conserved: a successful committing of a transaction that is
/// stored as prepared moves its row to committed and changes nothing else
/// of it, and raises the balance of every wallet by exactly what the
/// transaction credits to it; by `law_credits_add_up` that is the amount
/// that the preparation took from the payer.
pub proof fn law_commit_conserves_funds(
    store: StoreView,
    key: Seq<u8>,
    txn: TransactionView,
    u: Id,
)
    requires
        txn.fits(),
        store.transactions.contains_key(txn.key()),
        store.transactions[txn.key()].status == 1,
    ensures
        ({
            let c = spec_commit(store, key, txn);
            c.2 is Ok ==> {
                &&& c.1.status == 3
                &&& c.0.transactions.contains_key(txn.key())
                &&& c.0.transactions[txn.key()] == (TransactionView {
                    status: 3,
                    ..store.transactions[txn.key()]
                })
                &&& balance_of(c.0, u) == balance_of(store, u) + credited_to(txn, u)
            }
        }),
{
    let started = CommitView::spec_start(txn);
    reveal_with_fuel(commit_run, 2);
    if started.1 is Some {
        let marked = store.apply(started.1->0);
        let m1 = started.0.spec_step(marked.1, key);
        lemma_commit_from(marked.0, key, m1.0, m1.1, (COMMIT_FUEL - 1) as nat, u);
    }
}

/// Whether a row is stored as committed.
pub open spec fn committed(store: StoreView, k: (Id, Id)) -> bool {
    store.transactions.contains_key(k) && store.transactions[k].status == 3
}

/// Whether a request leaves a committed row alone: it is no deletion of
/// the row and no move of a status away from committed.
pub open spec fn spares_committed(request: Option<RequestView>, k: (Id, Id)) -> bool {
    match request {
        Some(RequestView::SetTransactionStatus { from, to, .. }) => status_move_allowed(from, to),
        Some(RequestView::DeleteTransaction { uid, id }) => (uid, id) != k,
        _ => true,
    }
}

proof fn lemma_apply_keeps_committed(store: StoreView, request: RequestView, k: (Id, Id))
    requires
        committed(store, k),
        spares_committed(Some(request), k),
    ensures
        committed(store.apply(request).0, k),
{
}

/// Whether a request is one of those that a wallet task makes.
pub open spec fn of_a_wallet(request: Option<RequestView>) -> bool {
    match request {
        Some(RequestView::GetWallet { .. }) => true,
        Some(RequestView::CreateWallet { .. }) => true,
        Some(RequestView::UpdateBalance { .. }) => true,
        None => true,
        _ => false,
    }
}

pub proof fn lemma_task_asks_of_a_wallet(task: WalletTask, reply: ReplyView, key: Seq<u8>)
    ensures
        of_a_wallet(task.spec_step(reply, key).1),
{
}

proof fn lemma_cancel_step_spares(m: CancelView, reply: ReplyView, key: Seq<u8>, k: (Id, Id))
    ensures
        spares_committed(m.spec_step(reply, key).1, k),
{
    lemma_task_asks_of_a_wallet(m.task, reply, key);
}

proof fn lemma_commit_step_spares(m: CommitView, reply: ReplyView, key: Seq<u8>, k: (Id, Id))
    ensures
        spares_committed(m.spec_step(reply, key).1, k),
{
    lemma_task_asks_of_a_wallet(m.task, reply, key);
    let stepped = m.task.spec_step(reply, key);
    let d = CommitView { task: stepped.0, ..m };
    assert(forall|x: CommitView| spares_committed(#[trigger] x.finish().1, k));
    assert(forall|x: CommitView| spares_committed(#[trigger] x.begin_share().1, k));
    assert(forall|x: CommitView| spares_committed(#[trigger] x.begin_fee().1, k));
    assert(forall|x: CommitView| spares_committed(#[trigger] x.begin_pay().1, k));
}

proof fn lemma_cancel_keeps_committed(
    store: StoreView,
    key: Seq<u8>,
    m: CancelView,
    request: Option<RequestView>,
    fuel: nat,
    k: (Id, Id),
)
    requires
        committed(store, k),
        spares_committed(request, k),
    ensures
        committed(cancel_run(store, key, m, request, fuel).0, k),
    decreases fuel,
{
    reveal_with_fuel(cancel_run, 2);
    if request is Some && fuel > 0 {
        let answered = store.apply(request->0);
        let stepped = m.spec_step(answered.1, key);
        lemma_apply_keeps_committed(store, request->0, k);
        lemma_cancel_step_spares(m, answered.1, key, k);
        lemma_cancel_keeps_committed(answered.0, key, stepped.0, stepped.1, (fuel - 1) as nat, k);
    }
}

proof fn lemma_commit_keeps_committed(
    store: StoreView,
    key: Seq<u8>,
    m: CommitView,
    request: Option<RequestView>,
    fuel: nat,
    k: (Id, Id),
)
    requires
        committed(store, k),
        spares_committed(request, k),
    ensures
        committed(commit_run(store, key, m, request, fuel).0, k),
    decreases fuel,
{
    reveal_with_fuel(commit_run, 2);
    if request is Some && fuel > 0 {
        let answered = store.apply(request->0);
        let stepped = m.spec_step(answered.1, key);
        lemma_apply_keeps_committed(store, request->0, k);
        lemma_commit_step_spares(m, answered.1, key, k);
        lemma_commit_keeps_committed(answered.0, key, stepped.0, stepped.1, (fuel - 1) as nat, k);
    }
}

proof fn lemma_prepare_keeps_committed(
    store: StoreView,
    key: Seq<u8>,
    k: (Id, Id),
    txn: TransactionView,
    payee: Id,
    kind: TransactionKind,
    amount: int,
    id: Id,
)
    requires
        committed(store, k),
    ensures
        committed(spec_prepare(store, key, txn, payee, kind, amount, id).0, k),
{
    reveal_with_fuel(prepare_run, 6);
}

/// A committed transaction stays committed. No move of the status leads
/// away from it, and whatever transaction is prepared, cancelled or
/// committed, a row that is stored as committed is stored as committed
/// afterwards.
pub proof fn law_committed_is_final(
    store: StoreView,
    key: Seq<u8>,
    k: (Id, Id),
    txn: TransactionView,
    payee: Id,
    kind: TransactionKind,
    amount: int,
    id: Id,
)
    requires
        committed(store, k),
    ensures
        forall|to: int| !status_move_allowed(3, to),
        committed(spec_prepare(store, key, txn, payee, kind, amount, id).0, k),
        committed(spec_cancel(store, key, txn).0, k),
        committed(spec_commit(store, key, txn).0, k),
{
    let c = CancelView::spec_start(txn);
    lemma_cancel_keeps_committed(store, key, c.0, c.1, CANCEL_FUEL as nat, k);
    let d = CommitView::spec_start(txn);
    lemma_commit_keeps_committed(store, key, d.0, d.1, COMMIT_FUEL as nat, k);
    lemma_prepare_keeps_committed(store, key, k, txn, payee, kind, amount, id);
}

/// The credits that a user has in the store; none where there is no
/// wallet.
pub open spec fn credits_of(store: StoreView, uid: Id) -> int {
    if store.wallets.contains_key(uid) {
        store.wallets[uid].credits
    } else {
        0
    }
}

/// A successful saving either leaves the store as it was, or appends the
/// entry under a key that was free and raises the user's credits by
/// exactly its amount; it writes nothing else. So no key is ever given to
/// two entries, and every entry is counted once.
pub proof fn law_save_counts_once(store: StoreView, credit: CreditView)
    ensures
        ({
            let a = spec_save(store, credit);
            &&& a.0.transactions == store.transactions
            &&& a.0.charges == store.charges
            &&& a.1 is Ok ==> {
                ||| a.0 == store
                ||| {
                    &&& !store.credits.contains_key(credit.key())
                    &&& a.0.credits == store.credits.insert(credit.key(), credit)
                    &&& store.wallets.contains_key(credit.uid)
                    &&& a.0.wallets == store.wallets.insert(
                        credit.uid,
                        WalletView {
                            credits: store.wallets[credit.uid].credits + credit.amount,
                            ..store.wallets[credit.uid]
                        },
                    )
                }
            }
        }),
{
    reveal_with_fuel(credit_run, 6);
}

/// Saving is idempotent: an entry that was saved can be saved again, and
/// the second saving succeeds and changes nothing.
pub proof fn law_save_is_idempotent(store: StoreView, credit: CreditView)
    ensures
        ({
            let a = spec_save(store, credit);
            let b = spec_save(a.0, credit);
            a.1 is Ok ==> b.1 is Ok && b.0 == a.0
        }),
{
    reveal_with_fuel(credit_run, 6);
}

/// Every operation ends: on a store that nobody else writes to, the
/// preparing, the cancelling and the committing of a transaction and the
/// saving of a credit entry come to their end, well or not, within the
/// number of requests that their runs are given.
pub proof fn law_operations_end(
    store: StoreView,
    key: Seq<u8>,
    txn: TransactionView,
    payee: Id,
    kind: TransactionKind,
    amount: int,
    id: Id,
    credit: CreditView,
)
    requires
        txn.fits(),
    ensures
        ({
            let s = PrepareView::spec_start(txn, payee, kind, amount, id);
            prepare_run(store, key, s.0, s.1, PREPARE_FUEL as nat).1.finished()
        }),
        ({
            let s = CancelView::spec_start(txn);
            let m = cancel_run(store, key, s.0, s.1, CANCEL_FUEL as nat).1;
            m.phase is Succeeded || m.phase is Failed
        }),
        ({
            let s = CommitView::spec_start(txn);
            commit_ended(commit_run(store, key, s.0, s.1, COMMIT_FUEL as nat).1)
        }),
        ({
            let s = CreditSaveView::spec_start(credit);
            let m = credit_run(store, s.0, s.1, CREDIT_FUEL as nat).1;
            m.phase is Succeeded || m.phase is Failed
        }),
{
    lemma_prepare_ends(store, key, txn, payee, kind, amount, id);
    lemma_cancel_ends(store, key, txn);
    lemma_credit_ends(store, credit);
    lemma_commit_ends(store, key, txn);
}

pub proof fn lemma_prepare_ends(
    store: StoreView,
    key: Seq<u8>,
    txn: TransactionView,
    payee: Id,
    kind: TransactionKind,
    amount: int,
    id: Id,
)
    ensures
        ({
            let s = PrepareView::spec_start(txn, payee, kind, amount, id);
            prepare_run(store, key, s.0, s.1, PREPARE_FUEL as nat).1.finished()
        }),
{
    reveal_with_fuel(prepare_run, 7);
}

proof fn lemma_cancel_ends(store: StoreView, key: Seq<u8>, txn: TransactionView)
    ensures
        ({
            let s = CancelView::spec_start(txn);
            let m = cancel_run(store, key, s.0, s.1, CANCEL_FUEL as nat).1;
            m.phase is Succeeded || m.phase is Failed
        }),
{
    reveal_with_fuel(cancel_run, 7);
}

proof fn lemma_credit_ends(store: StoreView, credit: CreditView)
    ensures
        ({
            let s = CreditSaveView::spec_start(credit);
            let m = credit_run(store, s.0, s.1, CREDIT_FUEL as nat).1;
            m.phase is Succeeded || m.phase is Failed
        }),
{
    reveal_with_fuel(credit_run, 6);
}

pub proof fn lemma_commit_ends(store: StoreView, key: Seq<u8>, txn: TransactionView)
    requires
        txn.fits(),
    ensures
        ({
            let s = CommitView::spec_start(txn);
            commit_ended(commit_run(store, key, s.0, s.1, COMMIT_FUEL as nat).1)
        }),
{
    let started = CommitView::spec_start(txn);
    reveal_with_fuel(commit_run, 3);
    if started.1 is Some {
        let marked = store.apply(started.1->0);
        let m1 = started.0.spec_step(marked.1, key);
        if marked.1 == ReplyView::Applied(true) {
            lemma_commit_from(marked.0, key, m1.0, m1.1, (COMMIT_FUEL - 1) as nat, txn.uid);
        }
    }
}

/// Whether the wallet that a preparation holds is linked to its
/// transaction as far as the preparation has come: before the insertion of
/// the draft the transaction records the wallet's sequence; from the
/// writing of the wallet on, the wallet names the transaction as its last,
/// has a sequence one above the recorded one, and carries its checksum.
pub open spec fn prepare_linked(m: PrepareView, key: Seq<u8>) -> bool {
    match m.phase {
        PreparePhase::Inserting => m.wallet.sequence == m.txn.sequence,
        PreparePhase::Writing | PreparePhase::Marking | PreparePhase::Rereading | PreparePhase::Succeeded => {
            &&& m.wallet.sequence == m.txn.sequence + 1
            &&& m.wallet.txn == m.txn.id
            &&& checksum_ok(key, m.wallet)
        },
        _ => true,
    }
}

/// However the store answers, a preparation keeps its wallet linked to its
/// transaction: it is linked at the start and stays linked with every
/// step, and what the preparation asks to be written to the payer's
/// balance is the linked wallet, on condition that the stored sequence is
/// the one that the transaction recorded.
pub proof fn law_prepare_stays_linked(
    txn: TransactionView,
    payee: Id,
    kind: TransactionKind,
    amount: int,
    id: Id,
    m: PrepareView,
    reply: ReplyView,
    key: Seq<u8>,
)
    requires
        prepare_linked(m, key),
    ensures
        prepare_linked(PrepareView::spec_start(txn, payee, kind, amount, id).0, key),
        prepare_linked(m.spec_step(reply, key).0, key),
        m.spec_step(reply, key).1 matches Some(
            RequestView::UpdateBalance { wallet, expected_sequence },
        ) ==> {
            &&& wallet == m.spec_step(reply, key).0.wallet
            &&& expected_sequence == m.txn.sequence
            &&& wallet.sequence == m.txn.sequence + 1
            &&& wallet.txn == m.txn.id
            &&& wallet.uid == m.wallet.uid
        },
        m.spec_step(reply, key).0.phase is Succeeded ==> m.phase is Succeeded || (m.phase
            is Marking && reply == ReplyView::Applied(true)) || m.phase is Rereading,
{
}

/// However the store answers, what a wallet task asks to be written is the
/// wallet it read with exactly its three amounts added, one step further
/// in its sequence, naming the task's transaction, and carrying its
/// checksum; and it is to be written only where the stored sequence is
/// still the one that was read.
pub proof fn law_task_writes_what_it_read(task: WalletTask, reply: ReplyView, key: Seq<u8>)
    ensures
        task.spec_step(reply, key).1 matches Some(
            RequestView::UpdateBalance { wallet, expected_sequence },
        ) ==> {
            let read = if reply is Wallet {
                reply->Wallet_0
            } else {
                WalletView::fresh(task.uid)
            };
            &&& task.phase is Reading && reply is Wallet || task.phase is Creating
            &&& wallet.uid == task.uid
            &&& checksum_ok(key, read)
            &&& expected_sequence == read.sequence
            &&& wallet.sequence == read.sequence + 1
            &&& wallet.txn == task.txn
            &&& wallet.award == read.award + task.award
            &&& wallet.topup == read.topup + task.topup
            &&& wallet.income == read.income + task.income
            &&& checksum_ok(key, wallet)
        },
{
}

} // verus!
