//! A table of rows in memory, each found by its key, no key twice.

use vstd::prelude::*;

use crate::charge::{Charge, ChargeView};
use crate::credit::{Credit, CreditView};
use crate::id::{sys_id, Id};
use crate::transaction::{Transaction, TransactionView};
use crate::wallet::{Wallet, WalletView};

verus! {

/// A record that a table can hold: it has a key and can be copied.
pub trait Row: View + Sized {
    /// The key of a record, read from what it holds.
    spec fn key_of(v: Self::V) -> (Id, Id);

    fn key(&self) -> (r: (Id, Id))
        ensures
            r == Self::key_of(self@),
    ;

    fn copy(&self) -> (r: Self)
        ensures
            r@ == self@,
    ;
}

impl Row for Wallet {
    open spec fn key_of(v: WalletView) -> (Id, Id) {
        (v.uid, sys_id())
    }

    fn key(&self) -> (r: (Id, Id)) {
        (self.uid, sys_id())
    }

    fn copy(&self) -> (r: Wallet) {
        self.clone()
    }
}

impl Row for Transaction {
    open spec fn key_of(v: TransactionView) -> (Id, Id) {
        v.key()
    }

    fn key(&self) -> (r: (Id, Id)) {
        (self.uid, self.id)
    }

    fn copy(&self) -> (r: Transaction) {
        self.clone()
    }
}

impl Row for Credit {
    open spec fn key_of(v: CreditView) -> (Id, Id) {
        v.key()
    }

    fn key(&self) -> (r: (Id, Id)) {
        (self.uid, self.txn)
    }

    fn copy(&self) -> (r: Credit) {
        self.clone()
    }
}

impl Row for Charge {
    open spec fn key_of(v: ChargeView) -> (Id, Id) {
        v.key()
    }

    fn key(&self) -> (r: (Id, Id)) {
        (self.uid, self.id)
    }

    fn copy(&self) -> (r: Charge) {
        self.clone()
    }
}

/// What each row of a list holds.
pub open spec fn row_views<T: Row>(rows: Seq<T>) -> Seq<T::V> {
    Seq::new(rows.len(), |i: int| rows[i]@)
}

/// The number by which a row sorts in a listing: that of the second part
/// of its key.
pub open spec fn rank<T: Row>(v: T::V) -> int {
    T::key_of(v).1.spec_value()
}

/// Whether `page` is the newest page of the wanted rows of a table below a
/// bound: it holds at most `limit` rows; each is a row of the table, is
/// wanted, and sorts below the bound; no row comes twice, and the rows
/// come newest first; and a wanted row below the bound that is missing is
/// missing only because the page is full, and is no newer than any row on
/// it.
pub open spec fn is_newest_page<T: Row>(
    page: Seq<T::V>,
    model: Map<(Id, Id), T::V>,
    wanted: spec_fn(T::V) -> bool,
    below: int,
    limit: int,
) -> bool {
    &&& page.len() <= limit
    &&& forall|i: int|
        0 <= i < page.len() ==> {
            &&& model.contains_key(T::key_of(#[trigger] page[i]))
            &&& model[T::key_of(page[i])] == page[i]
            &&& wanted(page[i])
            &&& rank::<T>(page[i]) < below
        }
    &&& forall|i: int, j: int|
        0 <= i < j < page.len() ==> {
            &&& T::key_of(#[trigger] page[i]) != T::key_of(#[trigger] page[j])
            &&& rank::<T>(page[i]) >= rank::<T>(page[j])
        }
    &&& forall|k: (Id, Id)|
        #[trigger] model.contains_key(k) && wanted(model[k]) && rank::<T>(model[k]) < below ==> {
            ||| exists|i: int| 0 <= i < page.len() && T::key_of(#[trigger] page[i]) == k
            ||| page.len() == limit && forall|i: int|
                0 <= i < page.len() ==> rank::<T>(model[k]) <= rank::<T>(#[trigger] page[i])
        }
}

/// Rows kept in the order they were inserted.
pub struct Table<T: Row> {
    rows: Vec<T>,
}

impl<T: Row> Table<T> {
    /// No two rows have the same key.
    pub closed spec fn wf(&self) -> bool {
        forall|i: int, j: int|
            0 <= i < j < self.rows@.len() ==> T::key_of(#[trigger] self.rows@[i]@) != T::key_of(
                #[trigger] self.rows@[j]@,
            )
    }

    spec fn holds(&self, k: (Id, Id), i: int) -> bool {
        0 <= i < self.rows@.len() && T::key_of(self.rows@[i]@) == k
    }

    /// The table as a map from keys to what the rows hold.
    pub closed spec fn model(&self) -> Map<(Id, Id), T::V> {
        Map::new(
            |k: (Id, Id)| exists|i: int| self.holds(k, i),
            |k: (Id, Id)| self.rows@[choose|i: int| self.holds(k, i)]@,
        )
    }

    proof fn lemma_row(&self, i: int)
        requires
            self.wf(),
            0 <= i < self.rows@.len(),
        ensures
            self.model().contains_key(T::key_of(self.rows@[i]@)),
            self.model()[T::key_of(self.rows@[i]@)] == self.rows@[i]@,
    {
        let k = T::key_of(self.rows@[i]@);
        assert(self.holds(k, i));
        let j = choose|j: int| self.holds(k, j);
        assert(i == j);
    }

    /// Every row is found under its own key, and what the map holds under
    /// a key is what some row holds.
    pub proof fn lemma_keys(&self)
        requires
            self.wf(),
        ensures
            forall|k: (Id, Id)| #[trigger]
                self.model().contains_key(k) ==> T::key_of(self.model()[k]) == k,
            forall|k: (Id, Id)| #[trigger]
                self.model().contains_key(k) ==> exists|t: T| t@ == self.model()[k],
    {
        assert forall|k: (Id, Id)| #[trigger] self.model().contains_key(k) implies T::key_of(
            self.model()[k],
        ) == k && exists|t: T| t@ == self.model()[k] by {
            let i = choose|i: int| self.holds(k, i);
            self.lemma_row(i);
            assert(self.rows@[i]@ == self.model()[k]);
        }
    }

    /// What the rows hold, in the order they are kept.
    pub closed spec fn views(&self) -> Seq<T::V> {
        row_views(self.rows@)
    }

    /// The rows and the map tell the same: every row is found under its
    /// key, every key of the map is the key of a row, and no two rows have
    /// the same key.
    pub proof fn lemma_views(&self)
        requires
            self.wf(),
        ensures
            forall|i: int|
                0 <= i < self.views().len() ==> self.model().contains_key(
                    T::key_of(#[trigger] self.views()[i]),
                ) && self.model()[T::key_of(self.views()[i])] == self.views()[i],
            forall|k: (Id, Id)| #[trigger]
                self.model().contains_key(k) ==> exists|i: int|
                    0 <= i < self.views().len() && T::key_of(#[trigger] self.views()[i]) == k,
            forall|i: int, j: int|
                0 <= i < j < self.views().len() ==> T::key_of(#[trigger] self.views()[i])
                    != T::key_of(#[trigger] self.views()[j]),
    {
        assert forall|i: int| 0 <= i < self.views().len() implies self.model().contains_key(
            T::key_of(#[trigger] self.views()[i]),
        ) && self.model()[T::key_of(self.views()[i])] == self.views()[i] by {
            self.lemma_row(i);
        }
        assert forall|k: (Id, Id)| #[trigger] self.model().contains_key(k) implies exists|i: int|
            0 <= i < self.views().len() && T::key_of(#[trigger] self.views()[i]) == k by {
            let i = choose|i: int| self.holds(k, i);
            assert(T::key_of(self.views()[i]) == k);
        }
        assert forall|i: int, j: int| 0 <= i < j < self.views().len() implies T::key_of(
            #[trigger] self.views()[i],
        ) != T::key_of(#[trigger] self.views()[j]) by {
            assert(T::key_of(self.rows@[i]@) != T::key_of(self.rows@[j]@));
        }
    }

    /// How many rows there are.
    pub fn len(&self) -> (r: usize)
        ensures
            r == self.views().len(),
    {
        self.rows.len()
    }

    /// The row at a place.
    pub fn row(&self, i: usize) -> (r: &T)
        requires
            i < self.views().len(),
        ensures
            r@ == self.views()[i as int],
    {
        &self.rows[i]
    }

    /// The newest page of the wanted rows below a bound. `marks` tells of
    /// each row, in order, whether it is wanted.
    pub fn newest(
        &self,
        marks: &Vec<bool>,
        Ghost(wanted): Ghost<spec_fn(T::V) -> bool>,
        below: Id,
        limit: usize,
    ) -> (page: Vec<T>)
        requires
            self.wf(),
            marks@.len() == self.views().len(),
            forall|i: int| 0 <= i < marks@.len() ==> marks@[i] == wanted(#[trigger] self.views()[i]),
        ensures
            is_newest_page::<T>(
                row_views(page@),
                self.model(),
                wanted,
                below.spec_value(),
                limit as int,
            ),
    {
        let n: usize = self.rows.len();
        let bound: u128 = below.value();
        let ghost views = self.views();
        let mut picked: Vec<bool> = Vec::new();
        let mut c: usize = 0;
        while c < n
            invariant
                c <= n,
                picked@.len() == c,
                forall|i: int| 0 <= i < c ==> !picked@[i],
            decreases n - c,
        {
            picked.push(false);
            c += 1;
        }
        let mut out: Vec<T> = Vec::new();
        let ghost mut order: Seq<int> = Seq::empty();
        let mut done: bool = false;
        while out.len() < limit && !done
            invariant
                self.wf(),
                n == self.rows@.len(),
                views == self.views(),
                bound == below.spec_value(),
                marks@.len() == n,
                forall|i: int| 0 <= i < n ==> marks@[i] == wanted(#[trigger] views[i]),
                picked@.len() == n,
                out@.len() == order.len(),
                out@.len() <= limit,
                forall|j: int|
                    0 <= j < order.len() ==> {
                        &&& 0 <= #[trigger] order[j] < n
                        &&& out@[j]@ == views[order[j]]
                        &&& picked@[order[j]]
                        &&& wanted(views[order[j]])
                        &&& rank::<T>(views[order[j]]) < bound
                    },
                forall|i: int|
                    0 <= i < n && #[trigger] picked@[i] ==> exists|j: int|
                        0 <= j < order.len() && order[j] == i,
                forall|a: int, b: int| 0 <= a < b < order.len() ==> order[a] != order[b],
                forall|a: int, b: int|
                    0 <= a < b < order.len() ==> rank::<T>(views[#[trigger] order[a]]) >= rank::<T>(
                        views[#[trigger] order[b]],
                    ),
                forall|i: int, j: int|
                    0 <= i < n && 0 <= j < order.len() && wanted(#[trigger] views[i]) && rank::<T>(
                        views[i],
                    ) < bound && !picked@[i] ==> rank::<T>(views[i]) <= rank::<T>(
                        views[#[trigger] order[j]],
                    ),
                done ==> forall|i: int|
                    0 <= i < n && wanted(#[trigger] views[i]) && rank::<T>(views[i]) < bound
                        ==> picked@[i],
            decreases (limit - out@.len()) + (if done { 0int } else { 1int }),
        {
            let mut best: Option<usize> = None;
            let mut best_value: u128 = 0;
            let mut i: usize = 0;
            while i < n
                invariant
                    i <= n,
                    n == self.rows@.len(),
                    views == self.views(),
                    marks@.len() == n,
                    picked@.len() == n,
                    forall|k: int| 0 <= k < n ==> marks@[k] == wanted(#[trigger] views[k]),
                    match best {
                        Some(b) => {
                            &&& b < i
                            &&& wanted(views[b as int])
                            &&& !picked@[b as int]
                            &&& rank::<T>(views[b as int]) == best_value
                            &&& best_value < bound
                            &&& forall|k: int|
                                0 <= k < i && wanted(#[trigger] views[k]) && !picked@[k] && rank::<
                                    T,
                                >(views[k]) < bound ==> rank::<T>(views[k]) <= best_value
                        },
                        None => forall|k: int|
                            0 <= k < i ==> !(wanted(#[trigger] views[k]) && !picked@[k] && rank::<
                                T,
                            >(views[k]) < bound),
                    },
                decreases n - i,
            {
                if marks[i] && !picked[i] {
                    let key: (Id, Id) = self.rows[i].key();
                    let v: u128 = key.1.value();
                    assert(v == rank::<T>(views[i as int]));
                    if v < bound {
                        let better: bool = match best {
                            Some(_) => v > best_value,
                            None => true,
                        };
                        if better {
                            best = Some(i);
                            best_value = v;
                        }
                    }
                }
                i += 1;
            }
            match best {
                None => {
                    done = true;
                },
                Some(b) => {
                    let ghost old_order = order;
                    let ghost old_picked = picked@;
                    picked.set(b, true);
                    out.push(self.rows[b].copy());
                    proof {
                        order = order.push(b as int);
                        assert forall|i: int| 0 <= i < n && #[trigger] picked@[i] implies exists|
                            j: int,
                        | 0 <= j < order.len() && order[j] == i by {
                            if i == b {
                                assert(order[old_order.len() as int] == b);
                            } else {
                                assert(old_picked[i]);
                                let j = choose|j: int| 0 <= j < old_order.len() && old_order[j] == i;
                                assert(order[j] == i);
                            }
                        }
                        assert forall|a: int, c: int| 0 <= a < c < order.len() implies order[a]
                            != order[c] by {
                            if c == old_order.len() {
                                assert(old_picked[old_order[a]]);
                            }
                        }
                    }
                },
            }
        }
        proof {
            self.lemma_views();
            let page = row_views(out@);
            let model = self.model();
            assert forall|i: int| 0 <= i < page.len() implies {
                &&& model.contains_key(T::key_of(#[trigger] page[i]))
                &&& model[T::key_of(page[i])] == page[i]
                &&& wanted(page[i])
                &&& rank::<T>(page[i]) < below.spec_value()
            } by {
                assert(page[i] == views[order[i]]);
            }
            assert forall|i: int, j: int| 0 <= i < j < page.len() implies {
                &&& T::key_of(#[trigger] page[i]) != T::key_of(#[trigger] page[j])
                &&& rank::<T>(page[i]) >= rank::<T>(page[j])
            } by {
                assert(page[i] == views[order[i]]);
                assert(page[j] == views[order[j]]);
                assert(order[i] != order[j]);
                if order[i] < order[j] {
                    assert(T::key_of(views[order[i]]) != T::key_of(views[order[j]]));
                } else {
                    assert(T::key_of(views[order[j]]) != T::key_of(views[order[i]]));
                }
            }
            assert forall|k: (Id, Id)| #[trigger]
                model.contains_key(k) && wanted(model[k]) && rank::<T>(model[k])
                    < below.spec_value() implies {
                ||| exists|i: int| 0 <= i < page.len() && T::key_of(#[trigger] page[i]) == k
                ||| page.len() == limit && forall|i: int|
                    0 <= i < page.len() ==> rank::<T>(model[k]) <= rank::<T>(#[trigger] page[i])
            } by {
                let r = choose|r: int| 0 <= r < views.len() && T::key_of(#[trigger] views[r]) == k;
                assert(model[k] == views[r]);
                if picked@[r] {
                    let j = choose|j: int| 0 <= j < order.len() && order[j] == r;
                    assert(page[j] == views[order[j]]);
                    assert(T::key_of(page[j]) == k);
                } else {
                    assert(!done);
                    assert(page.len() == limit);
                    assert forall|i: int| 0 <= i < page.len() implies rank::<T>(model[k]) <= rank::<
                        T,
                    >(#[trigger] page[i]) by {
                        assert(page[i] == views[order[i]]);
                    }
                }
            }
        }
        out
    }

    pub fn new() -> (r: Table<T>)
        ensures
            r.wf(),
            r.model() == Map::<(Id, Id), T::V>::empty(),
    {
        let r = Table { rows: Vec::new() };
        assert(r.model() =~= Map::<(Id, Id), T::V>::empty());
        r
    }

    fn position(&self, k: (Id, Id)) -> (r: Option<usize>)
        requires
            self.wf(),
        ensures
            match r {
                Some(i) => self.holds(k, i as int) && self.model().contains_key(k)
                    && self.model()[k] == self.rows@[i as int]@,
                None => !self.model().contains_key(k) && forall|i: int| !self.holds(k, i),
            },
    {
        let mut i: usize = 0;
        while i < self.rows.len()
            invariant
                self.wf(),
                i <= self.rows@.len(),
                forall|j: int| 0 <= j < i ==> !self.holds(k, j),
            decreases self.rows@.len() - i,
        {
            let rk: (Id, Id) = self.rows[i].key();
            if rk.0 == k.0 && rk.1 == k.1 {
                proof {
                    self.lemma_row(i as int);
                }
                return Some(i);
            }
            i += 1;
        }
        None
    }

    /// A copy of the row with the given key, if there is one.
    pub fn get(&self, k: (Id, Id)) -> (r: Option<T>)
        requires
            self.wf(),
        ensures
            r is Some <==> self.model().contains_key(k),
            r is Some ==> r->0@ == self.model()[k] && T::key_of(r->0@) == k,
    {
        match self.position(k) {
            Some(i) => Some(self.rows[i].copy()),
            None => None,
        }
    }

    /// Adds the row unless a row with its key is there already; tells
    /// whether it was added.
    pub fn insert_if_absent(&mut self, t: T) -> (applied: bool)
        requires
            old(self).wf(),
        ensures
            final(self).wf(),
            applied == !old(self).model().contains_key(T::key_of(t@)),
            final(self).model() == if applied {
                old(self).model().insert(T::key_of(t@), t@)
            } else {
                old(self).model()
            },
    {
        let k: (Id, Id) = t.key();
        match self.position(k) {
            Some(_) => false,
            None => {
                let ghost before = *self;
                let ghost tv = t@;
                self.rows.push(t);
                proof {
                    let n = before.rows@.len() as int;
                    assert(self.wf()) by {
                        assert forall|i: int, j: int| 0 <= i < j < self.rows@.len() implies T::key_of(
                            #[trigger] self.rows@[i]@,
                        ) != T::key_of(#[trigger] self.rows@[j]@) by {
                            if j == n {
                                assert(!before.holds(k, i));
                            }
                        }
                    }
                    assert forall|q: (Id, Id)|
                        self.model().contains_key(q) <==> before.model().insert(
                            k,
                            tv,
                        ).contains_key(q) by {
                        if before.model().contains_key(q) {
                            let i = choose|i: int| before.holds(q, i);
                            assert(self.holds(q, i));
                        }
                        if q == k {
                            assert(self.holds(k, n));
                        }
                        if self.model().contains_key(q) {
                            let i = choose|i: int| self.holds(q, i);
                            if i < n {
                                assert(before.holds(q, i));
                            }
                        }
                    }
                    assert forall|q: (Id, Id)| self.model().contains_key(q) implies self.model()[q]
                        == before.model().insert(k, tv)[q] by {
                        let i = choose|i: int| self.holds(q, i);
                        self.lemma_row(i);
                        if i < n {
                            before.lemma_row(i);
                        }
                    }
                    assert(self.model() =~= before.model().insert(k, tv));
                }
                true
            },
        }
    }

    /// Puts the row in the place of the row with its key, if there is one;
    /// tells whether there was.
    pub fn replace(&mut self, t: T) -> (applied: bool)
        requires
            old(self).wf(),
        ensures
            final(self).wf(),
            applied == old(self).model().contains_key(T::key_of(t@)),
            final(self).model() == if applied {
                old(self).model().insert(T::key_of(t@), t@)
            } else {
                old(self).model()
            },
    {
        let k: (Id, Id) = t.key();
        match self.position(k) {
            None => false,
            Some(p) => {
                let ghost before = *self;
                let ghost tv = t@;
                self.rows.set(p, t);
                proof {
                    assert forall|i: int| 0 <= i < self.rows@.len() implies T::key_of(
                        #[trigger] self.rows@[i]@,
                    ) == T::key_of(before.rows@[i]@) by {}
                    assert(self.wf()) by {
                        assert forall|i: int, j: int| 0 <= i < j < self.rows@.len() implies T::key_of(
                            #[trigger] self.rows@[i]@,
                        ) != T::key_of(#[trigger] self.rows@[j]@) by {
                            assert(T::key_of(before.rows@[i]@) != T::key_of(before.rows@[j]@));
                        }
                    }
                    assert forall|q: (Id, Id)|
                        self.model().contains_key(q) <==> before.model().insert(
                            k,
                            tv,
                        ).contains_key(q) by {
                        if before.model().contains_key(q) {
                            let i = choose|i: int| before.holds(q, i);
                            assert(self.holds(q, i));
                        }
                        if q == k {
                            assert(self.holds(k, p as int));
                        }
                        if self.model().contains_key(q) {
                            let i = choose|i: int| self.holds(q, i);
                            assert(before.holds(q, i));
                        }
                    }
                    assert forall|q: (Id, Id)| self.model().contains_key(q) implies self.model()[q]
                        == before.model().insert(k, tv)[q] by {
                        let i = choose|i: int| self.holds(q, i);
                        self.lemma_row(i);
                        before.lemma_row(i);
                    }
                    assert(self.model() =~= before.model().insert(k, tv));
                }
                true
            },
        }
    }

    /// Takes out the row with the given key, if there is one.
    pub fn remove(&mut self, k: (Id, Id))
        requires
            old(self).wf(),
        ensures
            final(self).wf(),
            final(self).model() == old(self).model().remove(k),
    {
        match self.position(k) {
            None => {
                assert(self.model() =~= self.model().remove(k));
            },
            Some(p) => {
                let ghost before = *self;
                let _ = self.rows.remove(p);
                proof {
                    let n = self.rows@.len() as int;
                    assert forall|i: int| 0 <= i < n implies #[trigger] self.rows@[i]
                        == before.rows@[if i < p { i } else { i + 1 }] by {}
                    assert(self.wf()) by {
                        assert forall|i: int, j: int| 0 <= i < j < n implies T::key_of(
                            #[trigger] self.rows@[i]@,
                        ) != T::key_of(#[trigger] self.rows@[j]@) by {
                            let bi = if i < p { i } else { i + 1 };
                            let bj = if j < p { j } else { j + 1 };
                            assert(T::key_of(before.rows@[bi]@) != T::key_of(before.rows@[bj]@));
                        }
                    }
                    assert forall|q: (Id, Id)|
                        self.model().contains_key(q) <==> before.model().remove(k).contains_key(
                            q,
                        ) by {
                        if before.model().contains_key(q) && q != k {
                            let i = choose|i: int| before.holds(q, i);
                            assert(i != p);
                            let si = if i < p { i } else { i - 1 };
                            assert(self.holds(q, si));
                        }
                        if self.model().contains_key(q) {
                            let i = choose|i: int| self.holds(q, i);
                            let bi = if i < p { i } else { i + 1 };
                            assert(before.holds(q, bi));
                            if q == k {
                                assert(T::key_of(before.rows@[bi]@) != T::key_of(
                                    before.rows@[p as int]@,
                                ));
                            }
                        }
                    }
                    assert forall|q: (Id, Id)| self.model().contains_key(q) implies self.model()[q]
                        == before.model().remove(k)[q] by {
                        let i = choose|i: int| self.holds(q, i);
                        let bi = if i < p { i } else { i + 1 };
                        self.lemma_row(i);
                        before.lemma_row(bi);
                    }
                    assert(self.model() =~= before.model().remove(k));
                }
            },
        }
    }
}

} // verus!
