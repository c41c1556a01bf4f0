//! The checksum chain holds: on a store that nobody else writes to, every
//! wallet that the ledger leaves behind carries the checksum of its
//! contents.

use vstd::prelude::*;

use crate::cancel::{cancel_run, spec_cancel, CancelView, CANCEL_FUEL};
use crate::commit::{commit_run, spec_commit, CommitView, COMMIT_FUEL};
use crate::complete::{complete_run, spec_complete, CompleteView, COMPLETE_FUEL};
use crate::credit::CreditView;
use crate::credit_save::{credit_run, spec_save, CreditSaveView, CREDIT_FUEL};
use crate::id::Id;
use crate::kind::TransactionKind;
use crate::mac::checksum_ok;
use crate::prepare::{prepare_run, spec_prepare, PrepareView, PREPARE_FUEL};
use crate::store::{ReplyView, RequestView, StoreView};
use crate::task::WalletTask;
use crate::transaction::TransactionView;

verus! {

/// Whether every wallet in the store carries the checksum of its contents
/// under the key, or was never written to.
pub open spec fn all_sealed(store: StoreView, key: Seq<u8>) -> bool {
    forall|uid: Id| #[trigger]
        store.wallets.contains_key(uid) ==> checksum_ok(key, store.wallets[uid])
}

/// Whether a request, if it writes a wallet's balance, writes one that
/// carries the checksum of its contents.
pub open spec fn sealed_request(request: Option<RequestView>, key: Seq<u8>) -> bool {
    match request {
        Some(RequestView::UpdateBalance { wallet, .. }) => checksum_ok(key, wallet),
        _ => true,
    }
}

proof fn lemma_apply_keeps_sealed(store: StoreView, key: Seq<u8>, request: RequestView)
    requires
        all_sealed(store, key),
        sealed_request(Some(request), key),
    ensures
        all_sealed(store.apply(request).0, key),
{
    let after = store.apply(request).0;
    assert forall|uid: Id| #[trigger] after.wallets.contains_key(uid) implies checksum_ok(
        key,
        after.wallets[uid],
    ) by {
        if store.wallets.contains_key(uid) {
            assert(checksum_ok(key, store.wallets[uid]));
        }
    }
}

proof fn lemma_task_step_sealed(task: WalletTask, reply: ReplyView, key: Seq<u8>)
    ensures
        sealed_request(task.spec_step(reply, key).1, key),
{
}

proof fn lemma_prepare_step_sealed(m: PrepareView, reply: ReplyView, key: Seq<u8>)
    ensures
        sealed_request(m.spec_step(reply, key).1, key),
{
}

proof fn lemma_cancel_step_sealed(m: CancelView, reply: ReplyView, key: Seq<u8>)
    ensures
        sealed_request(m.spec_step(reply, key).1, key),
{
    lemma_task_step_sealed(m.task, reply, key);
}

proof fn lemma_commit_step_sealed(m: CommitView, reply: ReplyView, key: Seq<u8>)
    ensures
        sealed_request(m.spec_step(reply, key).1, key),
{
    lemma_task_step_sealed(m.task, reply, key);
    assert(forall|x: CommitView| sealed_request(#[trigger] x.finish().1, key));
    assert(forall|x: CommitView| sealed_request(#[trigger] x.begin_share().1, key));
    assert(forall|x: CommitView| sealed_request(#[trigger] x.begin_fee().1, key));
    assert(forall|x: CommitView| sealed_request(#[trigger] x.begin_pay().1, key));
}

proof fn lemma_complete_step_sealed(m: CompleteView, reply: ReplyView, key: Seq<u8>)
    ensures
        sealed_request(m.spec_step(reply, key).1, key),
{
    lemma_prepare_step_sealed(m.prepare, reply, key);
    lemma_commit_step_sealed(m.commit, reply, key);
    assert(forall|x: CompleteView| sealed_request(#[trigger] x.prepared().1, key));
    assert(forall|x: CompleteView| sealed_request(#[trigger] x.confirmed().1, key));
}

proof fn lemma_prepare_run_sealed(
    store: StoreView,
    key: Seq<u8>,
    m: PrepareView,
    request: Option<RequestView>,
    fuel: nat,
)
    requires
        all_sealed(store, key),
        sealed_request(request, key),
    ensures
        all_sealed(prepare_run(store, key, m, request, fuel).0, key),
    decreases fuel,
{
    reveal_with_fuel(prepare_run, 2);
    if request is Some && fuel > 0 {
        let answered = store.apply(request->0);
        let stepped = m.spec_step(answered.1, key);
        lemma_apply_keeps_sealed(store, key, request->0);
        lemma_prepare_step_sealed(m, answered.1, key);
        lemma_prepare_run_sealed(answered.0, key, stepped.0, stepped.1, (fuel - 1) as nat);
    }
}

proof fn lemma_cancel_run_sealed(
    store: StoreView,
    key: Seq<u8>,
    m: CancelView,
    request: Option<RequestView>,
    fuel: nat,
)
    requires
        all_sealed(store, key),
        sealed_request(request, key),
    ensures
        all_sealed(cancel_run(store, key, m, request, fuel).0, key),
    decreases fuel,
{
    reveal_with_fuel(cancel_run, 2);
    if request is Some && fuel > 0 {
        let answered = store.apply(request->0);
        let stepped = m.spec_step(answered.1, key);
        lemma_apply_keeps_sealed(store, key, request->0);
        lemma_cancel_step_sealed(m, answered.1, key);
        lemma_cancel_run_sealed(answered.0, key, stepped.0, stepped.1, (fuel - 1) as nat);
    }
}

proof fn lemma_commit_run_sealed(
    store: StoreView,
    key: Seq<u8>,
    m: CommitView,
    request: Option<RequestView>,
    fuel: nat,
)
    requires
        all_sealed(store, key),
        sealed_request(request, key),
    ensures
        all_sealed(commit_run(store, key, m, request, fuel).0, key),
    decreases fuel,
{
    reveal_with_fuel(commit_run, 2);
    if request is Some && fuel > 0 {
        let answered = store.apply(request->0);
        let stepped = m.spec_step(answered.1, key);
        lemma_apply_keeps_sealed(store, key, request->0);
        lemma_commit_step_sealed(m, answered.1, key);
        lemma_commit_run_sealed(answered.0, key, stepped.0, stepped.1, (fuel - 1) as nat);
    }
}

proof fn lemma_complete_run_sealed(
    store: StoreView,
    key: Seq<u8>,
    m: CompleteView,
    request: Option<RequestView>,
    fuel: nat,
)
    requires
        all_sealed(store, key),
        sealed_request(request, key),
    ensures
        all_sealed(complete_run(store, key, m, request, fuel).0, key),
    decreases fuel,
{
    reveal_with_fuel(complete_run, 2);
    if request is Some && fuel > 0 {
        let answered = store.apply(request->0);
        let stepped = m.spec_step(answered.1, key);
        lemma_apply_keeps_sealed(store, key, request->0);
        lemma_complete_step_sealed(m, answered.1, key);
        lemma_complete_run_sealed(answered.0, key, stepped.0, stepped.1, (fuel - 1) as nat);
    }
}

proof fn lemma_credit_run_sealed(
    store: StoreView,
    key: Seq<u8>,
    m: CreditSaveView,
    request: Option<RequestView>,
    fuel: nat,
)
    requires
        all_sealed(store, key),
        sealed_request(request, key),
    ensures
        all_sealed(credit_run(store, m, request, fuel).0, key),
    decreases fuel,
{
    reveal_with_fuel(credit_run, 2);
    if request is Some && fuel > 0 {
        let answered = store.apply(request->0);
        let stepped = m.spec_step(answered.1);
        lemma_apply_keeps_sealed(store, key, request->0);
        lemma_credit_run_sealed(answered.0, key, stepped.0, stepped.1, (fuel - 1) as nat);
    }
}

/// Every wallet that is read carries its checksum: if every wallet in the
/// store does, then so does every wallet after a transaction is prepared,
/// cancelled or committed, and after a credit entry is saved, whatever the
/// arguments and however the operation ends.
pub proof fn law_checksums_stay_valid(
    store: StoreView,
    key: Seq<u8>,
    txn: TransactionView,
    payee: Id,
    kind: TransactionKind,
    amount: int,
    id: Id,
    credit: CreditView,
)
    requires
        all_sealed(store, key),
    ensures
        all_sealed(spec_prepare(store, key, txn, payee, kind, amount, id).0, key),
        all_sealed(spec_cancel(store, key, txn).0, key),
        all_sealed(spec_commit(store, key, txn).0, key),
        all_sealed(spec_save(store, credit).0, key),
{
    let p = PrepareView::spec_start(txn, payee, kind, amount, id);
    lemma_prepare_run_sealed(store, key, p.0, p.1, PREPARE_FUEL as nat);
    let c = CancelView::spec_start(txn);
    lemma_cancel_run_sealed(store, key, c.0, c.1, CANCEL_FUEL as nat);
    let d = CommitView::spec_start(txn);
    lemma_commit_run_sealed(store, key, d.0, d.1, COMMIT_FUEL as nat);
    let s = CreditSaveView::spec_start(credit);
    lemma_credit_run_sealed(store, key, s.0, s.1, CREDIT_FUEL as nat);
}

/// The same holds of the completing of a charge.
pub proof fn law_complete_keeps_checksums(
    store: StoreView,
    key: Seq<u8>,
    uid: Id,
    id: Id,
    currency: Seq<char>,
    amount: int,
    charge_id: Seq<char>,
    charge_payload: Seq<u8>,
    txn_payload: Seq<u8>,
    txn_id: Id,
    now: int,
)
    requires
        all_sealed(store, key),
    ensures
        all_sealed(
            spec_complete(
                store,
                key,
                uid,
                id,
                currency,
                amount,
                charge_id,
                charge_payload,
                txn_payload,
                txn_id,
                now,
            ).0,
            key,
        ),
{
    let s = CompleteView::spec_start(
        uid,
        id,
        currency,
        amount,
        charge_id,
        charge_payload,
        txn_payload,
        txn_id,
        now,
    );
    lemma_complete_run_sealed(store, key, s.0, s.1, COMPLETE_FUEL as nat);
}

} // verus!
