//! The credits counter tells the log: on a store that nobody else writes
//! to, a user's credits are the sum of the amounts of the user's entries.

use vstd::prelude::*;

use crate::cancel::{cancel_run, spec_cancel, CancelView, CANCEL_FUEL};
use crate::commit::{commit_run, spec_commit, CommitView, COMMIT_FUEL};
use crate::credit::CreditView;
use crate::credit_save::spec_save;
use crate::id::Id;
use crate::kind::TransactionKind;
use crate::laws::{credits_of, law_save_counts_once, lemma_task_asks_of_a_wallet, of_a_wallet};
use crate::prepare::{prepare_run, spec_prepare, PrepareView, PREPARE_FUEL};
use crate::store::{ReplyView, RequestView, StoreView};
use crate::transaction::TransactionView;

verus! {

/// What the entry under a key adds to the credits of `uid`.
pub open spec fn share(credits: Map<(Id, Id), CreditView>, k: (Id, Id), uid: Id) -> int {
    if k.0 == uid {
        credits[k].amount
    } else {
        0
    }
}

/// The sum of the amounts of the entries of `uid` under the given keys.
pub open spec fn tally(credits: Map<(Id, Id), CreditView>, keys: Seq<(Id, Id)>, uid: Id) -> int
    decreases keys.len(),
{
    if keys.len() == 0 {
        0
    } else {
        tally(credits, keys.drop_last(), uid) + share(credits, keys.last(), uid)
    }
}

/// Whether a list names every key of the log, each once.
pub open spec fn lists(keys: Seq<(Id, Id)>, credits: Map<(Id, Id), CreditView>) -> bool {
    &&& keys.no_duplicates()
    &&& forall|k: (Id, Id)| keys.contains(k) <==> credits.contains_key(k)
}

/// Whether every user's credits are the sum of the amounts of the user's
/// entries, in whatever order the entries are listed; a user without a
/// wallet has no entries that count.
pub open spec fn counted(store: StoreView) -> bool {
    forall|keys: Seq<(Id, Id)>, uid: Id| #[trigger]
        lists(keys, store.credits) ==> credits_of(store, uid) == #[trigger] tally(
            store.credits,
            keys,
            uid,
        )
}

proof fn lemma_tally_without(
    credits: Map<(Id, Id), CreditView>,
    keys: Seq<(Id, Id)>,
    i: int,
    uid: Id,
)
    requires
        0 <= i < keys.len(),
    ensures
        tally(credits, keys, uid) == tally(credits, keys.remove(i), uid) + share(
            credits,
            keys[i],
            uid,
        ),
    decreases keys.len(),
{
    if i == keys.len() - 1 {
        assert(keys.remove(i) =~= keys.drop_last());
    } else {
        let rest = keys.drop_last();
        lemma_tally_without(credits, rest, i, uid);
        assert(keys.remove(i).drop_last() =~= rest.remove(i));
        assert(keys.remove(i).last() == keys.last());
    }
}

proof fn lemma_tally_agrees(
    a: Map<(Id, Id), CreditView>,
    b: Map<(Id, Id), CreditView>,
    keys: Seq<(Id, Id)>,
    uid: Id,
)
    requires
        forall|j: int| 0 <= j < keys.len() ==> a[#[trigger] keys[j]] == b[keys[j]],
    ensures
        tally(a, keys, uid) == tally(b, keys, uid),
    decreases keys.len(),
{
    if keys.len() > 0 {
        lemma_tally_agrees(a, b, keys.drop_last(), uid);
    }
}

proof fn lemma_lists_without(
    credits: Map<(Id, Id), CreditView>,
    keys: Seq<(Id, Id)>,
    i: int,
)
    requires
        0 <= i < keys.len(),
        lists(keys, credits),
    ensures
        lists(keys.remove(i), credits.remove(keys[i])),
        !keys.remove(i).contains(keys[i]),
{
    let rest = keys.remove(i);
    assert forall|a: int, b: int| 0 <= a < rest.len() && 0 <= b < rest.len() && a != b implies rest[a]
        != rest[b] by {
        let x = if a < i { a } else { a + 1 };
        let y = if b < i { b } else { b + 1 };
        assert(keys[x] != keys[y]);
    }
    assert forall|k: (Id, Id)| rest.contains(k) <==> credits.remove(keys[i]).contains_key(k) by {
        if rest.contains(k) {
            let a = choose|a: int| 0 <= a < rest.len() && rest[a] == k;
            let x = if a < i { a } else { a + 1 };
            assert(keys[x] == k);
            assert(keys.contains(k));
            assert(k != keys[i]);
        }
        if credits.remove(keys[i]).contains_key(k) {
            assert(keys.contains(k));
            let x = choose|x: int| 0 <= x < keys.len() && keys[x] == k;
            assert(x != i);
            let a = if x < i { x } else { x - 1 };
            assert(rest[a] == k);
        }
    }
    if rest.contains(keys[i]) {
        let a = choose|a: int| 0 <= a < rest.len() && rest[a] == keys[i];
        let x = if a < i { a } else { a + 1 };
        assert(keys[x] == keys[i]);
    }
}

/// A saving that succeeds keeps the counters true to the log. (One that
/// fails between the insertion of the entry and the raising of the counter
/// leaves an entry that is not counted yet.)
pub proof fn law_save_keeps_count(store: StoreView, credit: CreditView)
    requires
        counted(store),
    ensures
        spec_save(store, credit).1 is Ok ==> counted(spec_save(store, credit).0),
{
    law_save_counts_once(store, credit);
    let after = spec_save(store, credit).0;
    let k = credit.key();
    if spec_save(store, credit).1 is Ok && after != store {
        assert forall|keys: Seq<(Id, Id)>, uid: Id| #[trigger]
            lists(keys, after.credits) implies credits_of(after, uid) == #[trigger] tally(
            after.credits,
            keys,
            uid,
        ) by {
            assert(after.credits.contains_key(k));
            assert(keys.contains(k));
            let i = choose|i: int| 0 <= i < keys.len() && keys[i] == k;
            lemma_lists_without(after.credits, keys, i);
            let rest = keys.remove(i);
            assert(after.credits.remove(k) =~= store.credits);
            lemma_tally_without(after.credits, keys, i, uid);
            assert forall|j: int| 0 <= j < rest.len() implies after.credits[#[trigger] rest[j]]
                == store.credits[rest[j]] by {
                assert(rest.contains(rest[j]));
            }
            lemma_tally_agrees(after.credits, store.credits, rest, uid);
            assert(credits_of(store, uid) == tally(store.credits, rest, uid));
        }
    }
}

/// Whether two stores hold the same log and the same credits for every
/// user.
pub open spec fn same_counts(a: StoreView, b: StoreView) -> bool {
    a.credits == b.credits && forall|u: Id| credits_of(a, u) == credits_of(b, u)
}

/// Whether a request writes neither to the log nor to a counter.
pub open spec fn counts_nothing(request: Option<RequestView>) -> bool {
    match request {
        Some(RequestView::InsertCredit { .. }) => false,
        Some(RequestView::UpdateCredits { .. }) => false,
        _ => true,
    }
}

proof fn lemma_apply_same_counts(store: StoreView, request: RequestView)
    requires
        counts_nothing(Some(request)),
    ensures
        same_counts(store, store.apply(request).0),
{
}

proof fn lemma_prepare_step_counts_nothing(m: PrepareView, reply: ReplyView, key: Seq<u8>)
    ensures
        counts_nothing(m.spec_step(reply, key).1),
{
}

proof fn lemma_cancel_step_counts_nothing(m: CancelView, reply: ReplyView, key: Seq<u8>)
    ensures
        counts_nothing(m.spec_step(reply, key).1),
{
    lemma_task_asks_of_a_wallet(m.task, reply, key);
}

proof fn lemma_commit_step_counts_nothing(m: CommitView, reply: ReplyView, key: Seq<u8>)
    ensures
        counts_nothing(m.spec_step(reply, key).1),
{
    lemma_task_asks_of_a_wallet(m.task, reply, key);
    assert(forall|x: CommitView| counts_nothing(#[trigger] x.finish().1));
    assert(forall|x: CommitView| counts_nothing(#[trigger] x.begin_share().1));
    assert(forall|x: CommitView| counts_nothing(#[trigger] x.begin_fee().1));
    assert(forall|x: CommitView| counts_nothing(#[trigger] x.begin_pay().1));
}

proof fn lemma_prepare_run_same_counts(
    store: StoreView,
    key: Seq<u8>,
    m: PrepareView,
    request: Option<RequestView>,
    fuel: nat,
)
    requires
        counts_nothing(request),
    ensures
        same_counts(store, prepare_run(store, key, m, request, fuel).0),
    decreases fuel,
{
    reveal_with_fuel(prepare_run, 2);
    if request is Some && fuel > 0 {
        let answered = store.apply(request->0);
        let stepped = m.spec_step(answered.1, key);
        lemma_apply_same_counts(store, request->0);
        lemma_prepare_step_counts_nothing(m, answered.1, key);
        lemma_prepare_run_same_counts(answered.0, key, stepped.0, stepped.1, (fuel - 1) as nat);
    }
}

proof fn lemma_cancel_run_same_counts(
    store: StoreView,
    key: Seq<u8>,
    m: CancelView,
    request: Option<RequestView>,
    fuel: nat,
)
    requires
        counts_nothing(request),
    ensures
        same_counts(store, cancel_run(store, key, m, request, fuel).0),
    decreases fuel,
{
    reveal_with_fuel(cancel_run, 2);
    if request is Some && fuel > 0 {
        let answered = store.apply(request->0);
        let stepped = m.spec_step(answered.1, key);
        lemma_apply_same_counts(store, request->0);
        lemma_cancel_step_counts_nothing(m, answered.1, key);
        lemma_cancel_run_same_counts(answered.0, key, stepped.0, stepped.1, (fuel - 1) as nat);
    }
}

proof fn lemma_commit_run_same_counts(
    store: StoreView,
    key: Seq<u8>,
    m: CommitView,
    request: Option<RequestView>,
    fuel: nat,
)
    requires
        counts_nothing(request),
    ensures
        same_counts(store, commit_run(store, key, m, request, fuel).0),
    decreases fuel,
{
    reveal_with_fuel(commit_run, 2);
    if request is Some && fuel > 0 {
        let answered = store.apply(request->0);
        let stepped = m.spec_step(answered.1, key);
        lemma_apply_same_counts(store, request->0);
        lemma_commit_step_counts_nothing(m, answered.1, key);
        lemma_commit_run_same_counts(answered.0, key, stepped.0, stepped.1, (fuel - 1) as nat);
    }
}

proof fn lemma_same_counts_counted(a: StoreView, b: StoreView)
    requires
        counted(a),
        same_counts(a, b),
    ensures
        counted(b),
{
    assert forall|keys: Seq<(Id, Id)>, uid: Id| #[trigger] lists(keys, b.credits) implies credits_of(
        b,
        uid,
    ) == #[trigger] tally(b.credits, keys, uid) by {
        assert(credits_of(a, uid) == tally(a.credits, keys, uid));
    }
}

/// Preparing, cancelling and committing a transaction write neither to the
/// log nor to a counter, so they keep the counters true to the log, however
/// they end.
pub proof fn law_ledger_keeps_count(
    store: StoreView,
    key: Seq<u8>,
    txn: TransactionView,
    payee: Id,
    kind: TransactionKind,
    amount: int,
    id: Id,
)
    requires
        counted(store),
    ensures
        counted(spec_prepare(store, key, txn, payee, kind, amount, id).0),
        counted(spec_cancel(store, key, txn).0),
        counted(spec_commit(store, key, txn).0),
{
    let p = PrepareView::spec_start(txn, payee, kind, amount, id);
    lemma_prepare_run_same_counts(store, key, p.0, p.1, PREPARE_FUEL as nat);
    lemma_same_counts_counted(store, spec_prepare(store, key, txn, payee, kind, amount, id).0);
    let c = CancelView::spec_start(txn);
    lemma_cancel_run_same_counts(store, key, c.0, c.1, CANCEL_FUEL as nat);
    lemma_same_counts_counted(store, spec_cancel(store, key, txn).0);
    let d = CommitView::spec_start(txn);
    lemma_commit_run_same_counts(store, key, d.0, d.1, COMMIT_FUEL as nat);
    lemma_same_counts_counted(store, spec_commit(store, key, txn).0);
}

/// An empty store counts true.
pub proof fn law_empty_store_is_counted()
    ensures
        counted(StoreView::empty()),
{
    assert forall|keys: Seq<(Id, Id)>, uid: Id| #[trigger]
        lists(keys, StoreView::empty().credits) implies credits_of(StoreView::empty(), uid)
        == #[trigger] tally(StoreView::empty().credits, keys, uid) by {
        if keys.len() > 0 {
            assert(keys.contains(keys[0]));
        }
    }
}

} // verus!
