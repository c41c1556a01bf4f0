//! A charge reaches the ledger once: on a store that nobody else writes
//! to, a completing that succeeds leaves the charge committed, and a
//! second completing changes nothing.

use vstd::prelude::*;

use crate::charge::{ChargeUpdateView, ChargeView, CHARGE_FAILED, CHARGE_WINDOW_MS};
use crate::charge_flow::{charge_run, spec_save_charge, spec_update_charge};
use crate::commit::{commit_run, CommitView};
use crate::error::Error;
use crate::complete::{
    complete_run, error_of, spec_complete, CompletePhase, CompleteView, COMPLETE_FUEL,
};
use crate::id::{sys_id, Id};
use crate::kind::TransactionKind;
use crate::commit::COMMIT_FUEL;
use crate::laws::{
    balance_of, commit_ended, credited_to, law_commit_conserves_funds, law_prepare_links_wallet,
    law_prepare_writes_the_payer_only, lemma_commit_ends, lemma_prepare_ends,
    lemma_task_asks_of_a_wallet, of_a_wallet,
};
use crate::commit::spec_commit;
use crate::prepare::{prepare_admits, prepare_run, spec_prepare, PrepareView, PREPARE_FUEL};
use crate::transaction::TransactionView;
use crate::store::{ReplyView, RequestView, StoreView};

verus! {

/// What the saving of a new charge comes to: the store afterwards and the
/// result. A charge that is neither initialized nor awaiting the provider
/// is refused, and so is a time too late for the charge to run a day;
/// under an identifier that is taken the charge is not saved; else it is
/// stored with the identifier, the time as its last update, and a day to
/// run.
pub open spec fn save_charge_outcome(store: StoreView, charge: ChargeView, id: Id, now: int) -> (
    StoreView,
    Result<(), Error>,
) {
    let saved = ChargeView { id, updated_at: now, expire_at: now + CHARGE_WINDOW_MS, ..charge };
    if charge.status != 0 && charge.status != 1 {
        (store, Err(Error::InvalidArgument))
    } else if now + CHARGE_WINDOW_MS > i64::MAX {
        (store, Err(Error::Overflow))
    } else if store.charges.contains_key(saved.key()) {
        (store, Err(Error::StatusConflict))
    } else {
        (StoreView { charges: store.charges.insert(saved.key(), saved), ..store }, Ok(()))
    }
}

/// The saving of a new charge comes to what `save_charge_outcome` says,
/// and on success this charge is the stored one.
pub proof fn law_save_charge_in_full(store: StoreView, charge: ChargeView, id: Id, now: int)
    ensures
        ({
            let r = spec_save_charge(store, charge, id, now);
            let o = save_charge_outcome(store, charge, id, now);
            &&& r.0 == o.0
            &&& r.2 == o.1
            &&& r.2 is Ok ==> r.0.charges[(charge.uid, id)] == r.1
        }),
{
    reveal_with_fuel(charge_run, 3);
}

/// What an update of a charge comes to: the store afterwards and the
/// result. No update sets the status that is kept for failures; a charge
/// that is not stored is not found; one that is stored with another
/// status than the expected one is a conflict; else the columns of the
/// update and the time are written.
pub open spec fn update_charge_outcome(
    store: StoreView,
    charge: ChargeView,
    changes: ChargeUpdateView,
    expected: int,
    now: int,
) -> (StoreView, Result<(), Error>) {
    let k = (charge.uid, charge.id);
    if changes.status == Some(CHARGE_FAILED as int) {
        (store, Err(Error::InvalidArgument))
    } else if !store.charges.contains_key(k) {
        (store, Err(Error::NotFound))
    } else if store.charges[k].key() != k {
        (store, Err(Error::StoreUnavailable))
    } else if store.charges[k].status != expected {
        (store, Err(Error::StatusConflict))
    } else {
        (
            StoreView {
                charges: store.charges.insert(k, store.charges[k].updated(changes, now)),
                ..store
            },
            Ok(()),
        )
    }
}

/// An update of a charge comes to what `update_charge_outcome` says, and
/// on success this charge is the stored one.
pub proof fn law_update_charge_in_full(
    store: StoreView,
    charge: ChargeView,
    changes: ChargeUpdateView,
    expected: int,
    now: int,
)
    ensures
        ({
            let r = spec_update_charge(store, charge, changes, expected, now);
            let o = update_charge_outcome(store, charge, changes, expected, now);
            &&& r.0 == o.0
            &&& r.2 == o.1
            &&& r.2 is Ok ==> r.0.charges[(charge.uid, charge.id)] == r.1
        }),
{
    reveal_with_fuel(charge_run, 4);
}

/// Whether a request leaves the charges alone.
pub open spec fn spares_charges(request: Option<RequestView>) -> bool {
    match request {
        Some(RequestView::InsertCharge { .. }) => false,
        Some(RequestView::UpdateCharge { .. }) => false,
        _ => true,
    }
}

/// Whether the charge of a completing is stored under its own key with
/// the provider's identifier that the caller gave.
pub open spec fn charge_known(store: StoreView, m: CompleteView) -> bool {
    let k = (m.charge.uid, m.charge.id);
    store.charges.contains_key(k) && store.charges[k].key() == k && store.charges[k].charge_id
        == m.charge_id
}

/// What holds of a completing, its next request and the store between two
/// of its steps.
pub open spec fn complete_inv(store: StoreView, m: CompleteView, request: Option<RequestView>) -> bool {
    match m.phase {
        CompletePhase::Reading => request == Some(
            RequestView::GetCharge { uid: m.charge.uid, id: m.charge.id },
        ),
        CompletePhase::Confirming => charge_known(store, m) && (request matches Some(
            RequestView::UpdateCharge { uid, id, changes, .. },
        ) && uid == m.charge.uid && id == m.charge.id && changes == m.confirm),
        CompletePhase::Preparing | CompletePhase::Committing => charge_known(store, m)
            && spares_charges(request),
        CompletePhase::Finalizing => charge_known(store, m) && request == m.finalize_request(),
        CompletePhase::Succeeded => charge_known(store, m) && store.charges[(
            m.charge.uid,
            m.charge.id,
        )].status == 3 && request is None,
        CompletePhase::Failed(_) => request is None,
    }
}

proof fn lemma_prepare_spares_charges(m: crate::prepare::PrepareView, reply: ReplyView, key: Seq<u8>)
    ensures
        spares_charges(m.spec_step(reply, key).1),
{
}

proof fn lemma_commit_spares_charges(m: crate::commit::CommitView, reply: ReplyView, key: Seq<u8>)
    ensures
        spares_charges(m.spec_step(reply, key).1),
{
    lemma_task_asks_of_a_wallet(m.task, reply, key);
    assert(forall|x: crate::commit::CommitView| spares_charges(#[trigger] x.finish().1));
    assert(forall|x: crate::commit::CommitView| spares_charges(#[trigger] x.begin_share().1));
    assert(forall|x: crate::commit::CommitView| spares_charges(#[trigger] x.begin_fee().1));
    assert(forall|x: crate::commit::CommitView| spares_charges(#[trigger] x.begin_pay().1));
}

proof fn lemma_complete_step_keeps_inv(
    store: StoreView,
    key: Seq<u8>,
    m: CompleteView,
    request: RequestView,
)
    requires
        complete_inv(store, m, Some(request)),
        m.confirm.charge_id is None,
    ensures
        ({
            let answered = store.apply(request);
            let stepped = m.spec_step(answered.1, key);
            &&& complete_inv(answered.0, stepped.0, stepped.1)
            &&& stepped.0.charge.uid == m.charge.uid
            &&& stepped.0.charge.id == m.charge.id
            &&& stepped.0.charge_id == m.charge_id
            &&& stepped.0.confirm == m.confirm
        }),
{
    let answered = store.apply(request);
    lemma_prepare_spares_charges(m.prepare, answered.1, key);
    lemma_commit_spares_charges(m.commit, answered.1, key);
    assert(forall|x: CompleteView| spares_charges(#[trigger] x.prepared().1));
    assert(forall|x: CompleteView| spares_charges(#[trigger] x.confirmed().1));
}

proof fn lemma_complete_run_keeps_inv(
    store: StoreView,
    key: Seq<u8>,
    m: CompleteView,
    request: Option<RequestView>,
    fuel: nat,
)
    requires
        complete_inv(store, m, request),
        m.confirm.charge_id is None,
    ensures
        ({
            let ended = complete_run(store, key, m, request, fuel);
            &&& ended.1.charge.uid == m.charge.uid
            &&& ended.1.charge.id == m.charge.id
            &&& ended.1.charge_id == m.charge_id
            &&& ended.1.phase is Succeeded ==> charge_known(ended.0, ended.1)
                && ended.0.charges[(m.charge.uid, m.charge.id)].status == 3
        }),
    decreases fuel,
{
    reveal_with_fuel(complete_run, 2);
    if request is Some && fuel > 0 {
        let answered = store.apply(request->0);
        let stepped = m.spec_step(answered.1, key);
        lemma_complete_step_keeps_inv(store, key, m, request->0);
        lemma_complete_run_keeps_inv(answered.0, key, stepped.0, stepped.1, (fuel - 1) as nat);
    }
}

/// A completing that succeeds leaves the charge stored as committed, with
/// the provider's identifier that the caller gave.
pub proof fn law_complete_commits_the_charge(
    store: StoreView,
    key: Seq<u8>,
    uid: Id,
    id: Id,
    currency: Seq<char>,
    amount: int,
    charge_id: Seq<char>,
    charge_payload: Seq<u8>,
    txn_payload: Seq<u8>,
    txn_id: Id,
    now: int,
)
    ensures
        ({
            let c = spec_complete(
                store,
                key,
                uid,
                id,
                currency,
                amount,
                charge_id,
                charge_payload,
                txn_payload,
                txn_id,
                now,
            );
            c.2 is Ok ==> {
                &&& c.0.charges.contains_key((uid, id))
                &&& c.0.charges[(uid, id)].key() == (uid, id)
                &&& c.0.charges[(uid, id)].status == 3
                &&& c.0.charges[(uid, id)].charge_id == charge_id
            }
        }),
{
    let s = CompleteView::spec_start(
        uid,
        id,
        currency,
        amount,
        charge_id,
        charge_payload,
        txn_payload,
        txn_id,
        now,
    );
    lemma_complete_run_keeps_inv(store, key, s.0, s.1, COMPLETE_FUEL as nat);
}

/// A charge reaches the ledger once: after a completing that succeeded, a
/// second completing of the same charge, whatever it brings as currency,
/// amount, payloads, transaction and time, succeeds and changes nothing in
/// the store: no wallet is written to and no transaction is made.
pub proof fn law_complete_is_idempotent(
    store: StoreView,
    key: Seq<u8>,
    uid: Id,
    id: Id,
    currency: Seq<char>,
    amount: int,
    charge_id: Seq<char>,
    charge_payload: Seq<u8>,
    txn_payload: Seq<u8>,
    txn_id: Id,
    now: int,
    again: (Seq<char>, int, Seq<u8>, Seq<u8>, Id, int),
)
    ensures
        ({
            let first = spec_complete(
                store,
                key,
                uid,
                id,
                currency,
                amount,
                charge_id,
                charge_payload,
                txn_payload,
                txn_id,
                now,
            );
            let second = spec_complete(
                first.0,
                key,
                uid,
                id,
                again.0,
                again.1,
                charge_id,
                again.2,
                again.3,
                again.4,
                again.5,
            );
            first.2 is Ok ==> second.2 is Ok && second.0 == first.0 && second.1.status == 3
        }),
{
    law_complete_commits_the_charge(
        store,
        key,
        uid,
        id,
        currency,
        amount,
        charge_id,
        charge_payload,
        txn_payload,
        txn_id,
        now,
    );
    reveal_with_fuel(complete_run, 3);
}

/// How many requests a preparation makes, up to `fuel`.
pub open spec fn prepare_count(
    store: StoreView,
    key: Seq<u8>,
    m: PrepareView,
    request: Option<RequestView>,
    fuel: nat,
) -> nat
    decreases fuel,
{
    if request is None || fuel == 0 {
        0
    } else {
        let answered = store.apply(request->0);
        let stepped = m.spec_step(answered.1, key);
        1 + prepare_count(answered.0, key, stepped.0, stepped.1, (fuel - 1) as nat)
    }
}

/// How many requests a committing makes, up to `fuel`.
pub open spec fn commit_count(
    store: StoreView,
    key: Seq<u8>,
    m: CommitView,
    request: Option<RequestView>,
    fuel: nat,
) -> nat
    decreases fuel,
{
    if request is None || fuel == 0 {
        0
    } else {
        let answered = store.apply(request->0);
        let stepped = m.spec_step(answered.1, key);
        1 + commit_count(answered.0, key, stepped.0, stepped.1, (fuel - 1) as nat)
    }
}

/// The completing after the committing of the top-up has ended, and its
/// next request.
pub open spec fn after_commit(m: CompleteView) -> (CompleteView, Option<RequestView>) {
    if m.commit.outcome() is Err {
        m.fail(error_of(m.commit.outcome()))
    } else {
        (CompleteView { phase: CompletePhase::Finalizing, ..m }, m.finalize_request())
    }
}

/// While the top-up is being prepared, the completing does what the
/// preparation does, and goes on from where the preparation ended.
pub proof fn lemma_complete_runs_prepare(
    store: StoreView,
    key: Seq<u8>,
    m: CompleteView,
    request: Option<RequestView>,
    steps: nat,
    fuel: nat,
)
    requires
        m.phase is Preparing,
        request is Some,
        !m.prepare.finished(),
        fuel >= steps,
        prepare_run(store, key, m.prepare, request, steps).1.finished(),
    ensures
        ({
            let e = prepare_run(store, key, m.prepare, request, steps);
            let k = prepare_count(store, key, m.prepare, request, steps);
            let next = CompleteView { prepare: e.1, ..m }.prepared();
            &&& k <= steps
            &&& complete_run(store, key, m, request, fuel) == complete_run(
                e.0,
                key,
                next.0,
                next.1,
                (fuel - k) as nat,
            )
        }),
    decreases steps,
{
    reveal_with_fuel(prepare_run, 2);
    reveal_with_fuel(prepare_count, 2);
    reveal_with_fuel(complete_run, 2);
    if steps > 0 {
        let answered = store.apply(request->0);
        let stepped = m.prepare.spec_step(answered.1, key);
        if !stepped.0.finished() {
            lemma_complete_runs_prepare(
                answered.0,
                key,
                CompleteView { prepare: stepped.0, ..m },
                stepped.1,
                (steps - 1) as nat,
                (fuel - 1) as nat,
            );
        }
    }
}

/// While the top-up is being committed, the completing does what the
/// committing does, and goes on from where the committing ended.
pub proof fn lemma_complete_runs_commit(
    store: StoreView,
    key: Seq<u8>,
    m: CompleteView,
    request: Option<RequestView>,
    steps: nat,
    fuel: nat,
)
    requires
        m.phase is Committing,
        request is Some,
        !commit_ended(m.commit),
        fuel >= steps,
        commit_ended(commit_run(store, key, m.commit, request, steps).1),
    ensures
        ({
            let e = commit_run(store, key, m.commit, request, steps);
            let k = commit_count(store, key, m.commit, request, steps);
            let next = after_commit(CompleteView { commit: e.1, ..m });
            &&& k <= steps
            &&& complete_run(store, key, m, request, fuel) == complete_run(
                e.0,
                key,
                next.0,
                next.1,
                (fuel - k) as nat,
            )
        }),
    decreases steps,
{
    reveal_with_fuel(commit_run, 2);
    reveal_with_fuel(commit_count, 2);
    reveal_with_fuel(complete_run, 2);
    if steps > 0 {
        let answered = store.apply(request->0);
        let stepped = m.commit.spec_step(answered.1, key);
        lemma_commit_step_ends_with_none(m.commit, answered.1, key);
        if !commit_ended(stepped.0) {
            lemma_complete_runs_commit(
                answered.0,
                key,
                CompleteView { commit: stepped.0, ..m },
                stepped.1,
                (steps - 1) as nat,
                (fuel - 1) as nat,
            );
        }
    }
}

proof fn lemma_commit_step_ends_with_none(m: CommitView, reply: ReplyView, key: Seq<u8>)
    requires
        !commit_ended(m),
    ensures
        commit_ended(m.spec_step(reply, key).0) <==> m.spec_step(reply, key).1 is None,
{
    let stepped = m.task.spec_step(reply, key);
    assert(stepped.0.finished() <==> stepped.1 is None);
    assert(forall|x: CommitView| commit_ended(#[trigger] x.finish().0) <==> x.finish().1 is None);
    assert(forall|x: CommitView|
        commit_ended(#[trigger] x.begin_share().0) <==> x.begin_share().1 is None);
    assert(forall|x: CommitView|
        commit_ended(#[trigger] x.begin_fee().0) <==> x.begin_fee().1 is None);
    assert(forall|x: CommitView|
        commit_ended(#[trigger] x.begin_pay().0) <==> x.begin_pay().1 is None);
}

proof fn lemma_prepare_run_spares_charges(
    store: StoreView,
    key: Seq<u8>,
    m: PrepareView,
    request: Option<RequestView>,
    fuel: nat,
)
    requires
        spares_charges(request),
    ensures
        prepare_run(store, key, m, request, fuel).0.charges == store.charges,
    decreases fuel,
{
    reveal_with_fuel(prepare_run, 2);
    if request is Some && fuel > 0 {
        let answered = store.apply(request->0);
        let stepped = m.spec_step(answered.1, key);
        lemma_prepare_spares_charges(m, answered.1, key);
        lemma_prepare_run_spares_charges(answered.0, key, stepped.0, stepped.1, (fuel - 1) as nat);
    }
}

proof fn lemma_commit_run_spares_charges(
    store: StoreView,
    key: Seq<u8>,
    m: CommitView,
    request: Option<RequestView>,
    fuel: nat,
)
    requires
        spares_charges(request),
    ensures
        commit_run(store, key, m, request, fuel).0.charges == store.charges,
    decreases fuel,
{
    reveal_with_fuel(commit_run, 2);
    if request is Some && fuel > 0 {
        let answered = store.apply(request->0);
        let stepped = m.spec_step(answered.1, key);
        lemma_commit_spares_charges(m, answered.1, key);
        lemma_commit_run_spares_charges(answered.0, key, stepped.0, stepped.1, (fuel - 1) as nat);
    }
}

/// What the completing of a charge adds to the balance of `u`: the
/// quantity if `u` is the user of the charge, and the quantity less if `u`
/// is the system, which pays the top-up.
pub open spec fn topped_up(uid: Id, quantity: int, u: Id) -> int {
    (if u == uid {
        quantity
    } else {
        0
    }) - (if u == sys_id() {
        quantity
    } else {
        0
    })
}

/// The store after the provider's confirmation was written to a charge.
pub open spec fn confirmed_store(
    store: StoreView,
    uid: Id,
    id: Id,
    currency: Seq<char>,
    amount: int,
    charge_payload: Seq<u8>,
    now: int,
) -> StoreView {
    StoreView {
        charges: store.charges.insert(
            (uid, id),
            store.charges[(uid, id)].updated(
                crate::complete::confirmation(currency, amount, charge_payload),
                now,
            ),
        ),
        ..store
    }
}

/// The draft of the top-up of a charge: paid by the system, described by
/// the provider's name, with the payload that the caller gave.
pub open spec fn topup_draft(provider: Seq<char>, txn_payload: Seq<u8>) -> TransactionView {
    TransactionView {
        description: provider + ".topup"@,
        payload: txn_payload,
        ..TransactionView::empty(sys_id(), sys_id())
    }
}

/// The store, the completing and its next request after the charge was
/// read and its confirmation was asked for and answered.
pub open spec fn confirmed_stage(
    store: StoreView,
    key: Seq<u8>,
    start: (CompleteView, Option<RequestView>),
) -> (StoreView, CompleteView, Option<RequestView>) {
    let r1 = store.apply(start.1->0);
    let m1 = start.0.spec_step(r1.1, key);
    if m1.1 is Some {
        let r2 = r1.0.apply(m1.1->0);
        let m2 = m1.0.spec_step(r2.1, key);
        (r2.0, m2.0, m2.1)
    } else {
        (r1.0, m1.0, m1.1)
    }
}

proof fn lemma_complete_confirms(
    store: StoreView,
    key: Seq<u8>,
    uid: Id,
    id: Id,
    currency: Seq<char>,
    amount: int,
    charge_id: Seq<char>,
    charge_payload: Seq<u8>,
    txn_payload: Seq<u8>,
    txn_id: Id,
    now: int,
)
    requires
        store.charges.contains_key((uid, id)),
        store.charges[(uid, id)].key() == (uid, id),
        store.charges[(uid, id)].status == 1,
    ensures
        ({
            let s0 = CompleteView::spec_start(
                uid,
                id,
                currency,
                amount,
                charge_id,
                charge_payload,
                txn_payload,
                txn_id,
                now,
            );
            let g = confirmed_stage(store, key, s0);
            let row = store.charges[(uid, id)];
            let started = PrepareView::spec_start(
                g.1.draft,
                uid,
                TransactionKind::Topup,
                row.quantity,
                txn_id,
            );
            &&& complete_run(store, key, s0.0, s0.1, COMPLETE_FUEL as nat) == complete_run(
                g.0,
                key,
                g.1,
                g.2,
                (COMPLETE_FUEL - 2) as nat,
            )
            &&& g.1.phase is Preparing || (g.1.phase is Failed && g.2 is None)
            &&& g.1.phase is Preparing <==> charge_id == row.charge_id && prepare_admits(
                sys_id(),
                None,
                uid,
                TransactionKind::Topup,
                row.quantity,
            )
            &&& g.1.phase is Preparing ==> {
                &&& g.0 == confirmed_store(store, uid, id, currency, amount, charge_payload, now)
                &&& g.1.draft == topup_draft(row.provider, txn_payload)
                &&& g.0.wallets == store.wallets
                &&& g.0.transactions == store.transactions
                &&& g.0.charges.contains_key((uid, id))
                &&& g.0.charges[(uid, id)] == g.1.charge
                &&& g.1.charge.key() == (uid, id)
                &&& g.1.charge.status == 2
                &&& g.1.charge.txn == row.txn
                &&& g.1.txn_id == txn_id
                &&& g.1.draft.uid == sys_id()
                &&& g.1.draft.sub_payee is None
                &&& g.1.prepare == started.0
                &&& g.2 == started.1
                &&& g.2 is Some
            }
        }),
{
    reveal_with_fuel(complete_run, 3);
}

proof fn lemma_complete_finalizes(store: StoreView, key: Seq<u8>, m: CompleteView, fuel: nat)
    requires
        m.phase is Finalizing,
        fuel >= 1,
        store.charges.contains_key((m.charge.uid, m.charge.id)),
        store.charges[(m.charge.uid, m.charge.id)] == m.charge,
        m.charge.status == 2,
    ensures
        ({
            let c = complete_run(store, key, m, m.finalize_request(), fuel);
            &&& c.1.phase is Succeeded
            &&& c.0.wallets == store.wallets
            &&& c.0.transactions == store.transactions
            &&& c.1.charge.status == 3
            &&& c.1.charge.txn == Some(m.txn_id)
            &&& c.0.charges.contains_key((m.charge.uid, m.charge.id))
            &&& c.0.charges[(m.charge.uid, m.charge.id)] == c.1.charge
        }),
{
    reveal_with_fuel(complete_run, 3);
}

proof fn lemma_ended_run_is_itself(store: StoreView, key: Seq<u8>, m: CompleteView, fuel: nat)
    ensures
        complete_run(store, key, m, None, fuel) == (store, m),
{
    reveal_with_fuel(complete_run, 2);
}

/// The completing of a charge that awaits the provider, where it
/// succeeds, tops the user's wallet up by the charge's quantity at the
/// expense of the system's wallet and changes no other balance; it leaves
/// the top-up stored as a committed transaction and the charge as
/// committed by it.
pub proof fn law_complete_tops_up(
    store: StoreView,
    key: Seq<u8>,
    uid: Id,
    id: Id,
    currency: Seq<char>,
    amount: int,
    charge_id: Seq<char>,
    charge_payload: Seq<u8>,
    txn_payload: Seq<u8>,
    txn_id: Id,
    now: int,
    u: Id,
)
    requires
        store.charges.contains_key((uid, id)),
        store.charges[(uid, id)].key() == (uid, id),
        store.charges[(uid, id)].status == 1,
        i64::MIN <= store.charges[(uid, id)].quantity <= i64::MAX,
        store.wallets.contains_key(sys_id()) ==> store.wallets[sys_id()].fits(),
    ensures
        ({
            let c = spec_complete(
                store,
                key,
                uid,
                id,
                currency,
                amount,
                charge_id,
                charge_payload,
                txn_payload,
                txn_id,
                now,
            );
            c.2 is Ok ==> {
                &&& balance_of(c.0, u) == balance_of(store, u) + topped_up(
                    uid,
                    store.charges[(uid, id)].quantity,
                    u,
                )
                &&& c.1.status == 3
                &&& c.1.txn == Some(txn_id)
                &&& c.0.charges.contains_key((uid, id))
                &&& c.0.charges[(uid, id)] == c.1
                &&& c.0.transactions.contains_key((sys_id(), txn_id))
                &&& c.0.transactions[(sys_id(), txn_id)].status == 3
                &&& c.0.transactions[(sys_id(), txn_id)].amount == store.charges[(uid, id)].quantity
            }
        }),
{
    let quantity = store.charges[(uid, id)].quantity;
    let s0 = CompleteView::spec_start(
        uid,
        id,
        currency,
        amount,
        charge_id,
        charge_payload,
        txn_payload,
        txn_id,
        now,
    );
    lemma_complete_confirms(
        store,
        key,
        uid,
        id,
        currency,
        amount,
        charge_id,
        charge_payload,
        txn_payload,
        txn_id,
        now,
    );
    let g = confirmed_stage(store, key, s0);
    let f2: nat = (COMPLETE_FUEL - 2) as nat;
    if g.1.phase is Preparing {
        let draft = g.1.draft;
        lemma_prepare_ends(g.0, key, draft, uid, TransactionKind::Topup, quantity, txn_id);
        law_prepare_links_wallet(g.0, key, draft, uid, TransactionKind::Topup, quantity, txn_id);
        law_prepare_writes_the_payer_only(
            g.0,
            key,
            draft,
            uid,
            TransactionKind::Topup,
            quantity,
            txn_id,
        );
        lemma_complete_runs_prepare(g.0, key, g.1, g.2, PREPARE_FUEL as nat, f2);
        let e = prepare_run(g.0, key, g.1.prepare, g.2, PREPARE_FUEL as nat);
        let k1 = prepare_count(g.0, key, g.1.prepare, g.2, PREPARE_FUEL as nat);
        let m3 = CompleteView { prepare: e.1, ..g.1 }.prepared();
        let f3: nat = (f2 - k1) as nat;
        if m3.0.phase is Committing {
            let txn = e.1.txn;
            assert(txn.fits());
            assert(e.0.charges == g.0.charges);
            assert(balance_of(e.0, u) == balance_of(store, u) - (if u == sys_id() {
                quantity
            } else {
                0
            }));
            lemma_commit_ends(e.0, key, txn);
            law_commit_conserves_funds(e.0, key, txn, u);
            lemma_complete_runs_commit(e.0, key, m3.0, m3.1, COMMIT_FUEL as nat, f3);
            lemma_commit_run_spares_charges(e.0, key, m3.0.commit, m3.1, COMMIT_FUEL as nat);
            let f = commit_run(e.0, key, m3.0.commit, m3.1, COMMIT_FUEL as nat);
            let k2 = commit_count(e.0, key, m3.0.commit, m3.1, COMMIT_FUEL as nat);
            let m4 = after_commit(CompleteView { commit: f.1, ..m3.0 });
            let f4: nat = (f3 - k2) as nat;
            if m4.0.phase is Finalizing {
                assert(credited_to(txn, u) == (if u == uid {
                    quantity
                } else {
                    0
                }));
                lemma_complete_finalizes(f.0, key, m4.0, f4);
            } else {
                lemma_ended_run_is_itself(f.0, key, m4.0, f4);
            }
        } else {
            lemma_ended_run_is_itself(e.0, key, m3.0, f3);
        }
    } else {
        lemma_ended_run_is_itself(g.0, key, g.1, f2);
    }
}

/// The completing of a charge that awaits the provider succeeds exactly
/// where the caller gives the provider's identifier that is stored, the
/// top-up of the charge's quantity can be prepared on the store that holds
/// the confirmation, and the prepared top-up can be committed; when these
/// hold is said by `prepare_outcome` and `commit_outcome`.
pub proof fn law_complete_succeeds(
    store: StoreView,
    key: Seq<u8>,
    uid: Id,
    id: Id,
    currency: Seq<char>,
    amount: int,
    charge_id: Seq<char>,
    charge_payload: Seq<u8>,
    txn_payload: Seq<u8>,
    txn_id: Id,
    now: int,
)
    requires
        store.charges.contains_key((uid, id)),
        store.charges[(uid, id)].key() == (uid, id),
        store.charges[(uid, id)].status == 1,
        i64::MIN <= store.charges[(uid, id)].quantity <= i64::MAX,
        store.wallets.contains_key(sys_id()) ==> store.wallets[sys_id()].fits(),
    ensures
        ({
            let row = store.charges[(uid, id)];
            let c = spec_complete(
                store,
                key,
                uid,
                id,
                currency,
                amount,
                charge_id,
                charge_payload,
                txn_payload,
                txn_id,
                now,
            );
            let p = spec_prepare(
                confirmed_store(store, uid, id, currency, amount, charge_payload, now),
                key,
                topup_draft(row.provider, txn_payload),
                uid,
                TransactionKind::Topup,
                row.quantity,
                txn_id,
            );
            let q = spec_commit(p.0, key, p.1);
            c.2 is Ok <==> charge_id == row.charge_id && p.2 is Ok && q.2 is Ok
        }),
{
    let row = store.charges[(uid, id)];
    let quantity = row.quantity;
    let s0 = CompleteView::spec_start(
        uid,
        id,
        currency,
        amount,
        charge_id,
        charge_payload,
        txn_payload,
        txn_id,
        now,
    );
    lemma_complete_confirms(
        store,
        key,
        uid,
        id,
        currency,
        amount,
        charge_id,
        charge_payload,
        txn_payload,
        txn_id,
        now,
    );
    let g = confirmed_stage(store, key, s0);
    let f2: nat = (COMPLETE_FUEL - 2) as nat;
    let s1 = confirmed_store(store, uid, id, currency, amount, charge_payload, now);
    let draft = topup_draft(row.provider, txn_payload);
    crate::outcomes::law_prepare_in_full(s1, key, draft, uid, TransactionKind::Topup, quantity, txn_id);
    if g.1.phase is Preparing {
        lemma_prepare_ends(g.0, key, draft, uid, TransactionKind::Topup, quantity, txn_id);
        law_prepare_links_wallet(g.0, key, draft, uid, TransactionKind::Topup, quantity, txn_id);
        law_prepare_writes_the_payer_only(
            g.0,
            key,
            draft,
            uid,
            TransactionKind::Topup,
            quantity,
            txn_id,
        );
        lemma_complete_runs_prepare(g.0, key, g.1, g.2, PREPARE_FUEL as nat, f2);
        let e = prepare_run(g.0, key, g.1.prepare, g.2, PREPARE_FUEL as nat);
        let k1 = prepare_count(g.0, key, g.1.prepare, g.2, PREPARE_FUEL as nat);
        let m3 = CompleteView { prepare: e.1, ..g.1 }.prepared();
        let f3: nat = (f2 - k1) as nat;
        if e.1.outcome() is Ok {
            let txn = e.1.txn;
            assert(txn.fits());
            crate::outcomes::law_commit_in_full(e.0, key, txn);
            if m3.0.phase is Committing {
                lemma_commit_ends(e.0, key, txn);
                lemma_complete_runs_commit(e.0, key, m3.0, m3.1, COMMIT_FUEL as nat, f3);
                lemma_commit_run_spares_charges(e.0, key, m3.0.commit, m3.1, COMMIT_FUEL as nat);
                let f = commit_run(e.0, key, m3.0.commit, m3.1, COMMIT_FUEL as nat);
                let k2 = commit_count(e.0, key, m3.0.commit, m3.1, COMMIT_FUEL as nat);
                let m4 = after_commit(CompleteView { commit: f.1, ..m3.0 });
                let f4: nat = (f3 - k2) as nat;
                assert(e.0.charges == g.0.charges);
                if m4.0.phase is Finalizing {
                    lemma_complete_finalizes(f.0, key, m4.0, f4);
                } else {
                    lemma_ended_run_is_itself(f.0, key, m4.0, f4);
                }
            } else {
                lemma_ended_run_is_itself(e.0, key, m3.0, f3);
            }
        } else {
            lemma_ended_run_is_itself(e.0, key, m3.0, f3);
        }
    } else {
        lemma_ended_run_is_itself(g.0, key, g.1, f2);
    }
}

} // verus!
