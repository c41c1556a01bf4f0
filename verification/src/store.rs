//! What the ledger asks of the store, what the store answers, and a store
//! in memory that answers as the rules of conditional writes say.

use vstd::prelude::*;

use crate::charge::{Charge, ChargeUpdate, ChargeUpdateView, ChargeView};
use crate::credit::{Credit, CreditView};
use crate::id::{sys_id, Id};
use crate::table::{is_newest_page, row_views, Table};
use crate::transaction::{Transaction, TransactionView};
use crate::wallet::{Wallet, WalletView};

verus! {

/// One operation on one row of the store. A conditional write applies
/// wholly or not at all.
#[derive(Debug)]
pub enum Request {
    /// Read a wallet.
    GetWallet { uid: Id },
    /// Insert a fresh wallet unless the user has one.
    CreateWallet { uid: Id },
    /// Write sequence, buckets, last transaction and checksum of a wallet,
    /// if its stored sequence is the expected one. The credits stay.
    UpdateBalance { wallet: Wallet, expected_sequence: i64 },
    /// Write the credits of a wallet, if its stored credits are the
    /// expected ones.
    UpdateCredits { uid: Id, credits: i64, expected: i64 },
    /// Insert a transaction unless its key is taken.
    InsertTransaction { txn: Transaction },
    /// Delete a transaction.
    DeleteTransaction { uid: Id, id: Id },
    /// Write the status of a transaction, if its stored status is `from`.
    SetTransactionStatus { uid: Id, id: Id, from: i8, to: i8 },
    /// Read the status of a transaction.
    GetTransactionStatus { uid: Id, id: Id },
    /// Insert a credit entry unless its key is taken.
    InsertCredit { credit: Credit },
    /// Insert a charge unless its key is taken.
    InsertCharge { charge: Charge },
    /// Read a charge.
    GetCharge { uid: Id, id: Id },
    /// Write columns of a charge and the time of the update, if its stored
    /// status is the expected one.
    UpdateCharge { uid: Id, id: Id, expected_status: i8, changes: ChargeUpdate, updated_at: i64 },
}

/// What the store answers.
#[derive(Debug)]
pub enum Reply {
    Wallet(Wallet),
    Status(i8),
    Charge(Charge),
    /// Whether a conditional write applied.
    Applied(bool),
    /// The row read is not there.
    NotFound,
    /// The store failed or timed out; no write may be taken as done.
    Failed,
}

pub ghost enum RequestView {
    GetWallet { uid: Id },
    CreateWallet { uid: Id },
    UpdateBalance { wallet: WalletView, expected_sequence: int },
    UpdateCredits { uid: Id, credits: int, expected: int },
    InsertTransaction { txn: TransactionView },
    DeleteTransaction { uid: Id, id: Id },
    SetTransactionStatus { uid: Id, id: Id, from: int, to: int },
    GetTransactionStatus { uid: Id, id: Id },
    InsertCredit { credit: CreditView },
    InsertCharge { charge: ChargeView },
    GetCharge { uid: Id, id: Id },
    UpdateCharge {
        uid: Id,
        id: Id,
        expected_status: int,
        changes: ChargeUpdateView,
        updated_at: int,
    },
}

pub ghost enum ReplyView {
    Wallet(WalletView),
    Status(int),
    Charge(ChargeView),
    Applied(bool),
    NotFound,
    Failed,
}

impl View for Request {
    type V = RequestView;

    open spec fn view(&self) -> RequestView {
        match self {
            Request::GetWallet { uid } => RequestView::GetWallet { uid: *uid },
            Request::CreateWallet { uid } => RequestView::CreateWallet { uid: *uid },
            Request::UpdateBalance { wallet, expected_sequence } => RequestView::UpdateBalance {
                wallet: wallet@,
                expected_sequence: *expected_sequence as int,
            },
            Request::UpdateCredits { uid, credits, expected } => RequestView::UpdateCredits {
                uid: *uid,
                credits: *credits as int,
                expected: *expected as int,
            },
            Request::InsertTransaction { txn } => RequestView::InsertTransaction { txn: txn@ },
            Request::DeleteTransaction { uid, id } => RequestView::DeleteTransaction {
                uid: *uid,
                id: *id,
            },
            Request::SetTransactionStatus { uid, id, from, to } => RequestView::SetTransactionStatus {
                uid: *uid,
                id: *id,
                from: *from as int,
                to: *to as int,
            },
            Request::GetTransactionStatus { uid, id } => RequestView::GetTransactionStatus {
                uid: *uid,
                id: *id,
            },
            Request::InsertCredit { credit } => RequestView::InsertCredit { credit: credit@ },
            Request::InsertCharge { charge } => RequestView::InsertCharge { charge: charge@ },
            Request::GetCharge { uid, id } => RequestView::GetCharge { uid: *uid, id: *id },
            Request::UpdateCharge {
                uid,
                id,
                expected_status,
                changes,
                updated_at,
            } => RequestView::UpdateCharge {
                uid: *uid,
                id: *id,
                expected_status: *expected_status as int,
                changes: changes@,
                updated_at: *updated_at as int,
            },
        }
    }
}

impl View for Reply {
    type V = ReplyView;

    open spec fn view(&self) -> ReplyView {
        match self {
            Reply::Wallet(w) => ReplyView::Wallet(w@),
            Reply::Status(s) => ReplyView::Status(*s as int),
            Reply::Charge(c) => ReplyView::Charge(c@),
            Reply::Applied(b) => ReplyView::Applied(*b),
            Reply::NotFound => ReplyView::NotFound,
            Reply::Failed => ReplyView::Failed,
        }
    }
}

/// The view of a request that may be absent.
pub open spec fn request_view(r: Option<Request>) -> Option<RequestView> {
    match r {
        Some(q) => Some(q@),
        None => None,
    }
}

/// The rows of the store, as maps from keys to what the rows hold.
pub ghost struct StoreView {
    pub wallets: Map<Id, WalletView>,
    pub transactions: Map<(Id, Id), TransactionView>,
    pub credits: Map<(Id, Id), CreditView>,
    pub charges: Map<(Id, Id), ChargeView>,
}

impl StoreView {
    pub open spec fn empty() -> StoreView {
        StoreView {
            wallets: Map::empty(),
            transactions: Map::empty(),
            credits: Map::empty(),
            charges: Map::empty(),
        }
    }

    /// The store after a request, and the answer to it. A read changes
    /// nothing; an insert applies where the key is free; a conditional
    /// update applies where the row is there and its guard column has the
    /// expected value, and then writes its columns and no others.
    pub open spec fn apply(self, r: RequestView) -> (StoreView, ReplyView) {
        match r {
            RequestView::GetWallet { uid } => (
                self,
                if self.wallets.contains_key(uid) {
                    ReplyView::Wallet(self.wallets[uid])
                } else {
                    ReplyView::NotFound
                },
            ),
            RequestView::CreateWallet { uid } => if self.wallets.contains_key(uid) {
                (self, ReplyView::Applied(false))
            } else {
                (
                    StoreView { wallets: self.wallets.insert(uid, WalletView::fresh(uid)), ..self },
                    ReplyView::Applied(true),
                )
            },
            RequestView::UpdateBalance { wallet, expected_sequence } => if self.wallets.contains_key(
                wallet.uid,
            ) && self.wallets[wallet.uid].sequence == expected_sequence {
                (
                    StoreView {
                        wallets: self.wallets.insert(
                            wallet.uid,
                            WalletView { credits: self.wallets[wallet.uid].credits, ..wallet },
                        ),
                        ..self
                    },
                    ReplyView::Applied(true),
                )
            } else {
                (self, ReplyView::Applied(false))
            },
            RequestView::UpdateCredits { uid, credits, expected } => if self.wallets.contains_key(
                uid,
            ) && self.wallets[uid].credits == expected {
                (
                    StoreView {
                        wallets: self.wallets.insert(
                            uid,
                            WalletView { credits, ..self.wallets[uid] },
                        ),
                        ..self
                    },
                    ReplyView::Applied(true),
                )
            } else {
                (self, ReplyView::Applied(false))
            },
            RequestView::InsertTransaction { txn } => if self.transactions.contains_key(txn.key()) {
                (self, ReplyView::Applied(false))
            } else {
                (
                    StoreView { transactions: self.transactions.insert(txn.key(), txn), ..self },
                    ReplyView::Applied(true),
                )
            },
            RequestView::DeleteTransaction { uid, id } => (
                StoreView { transactions: self.transactions.remove((uid, id)), ..self },
                ReplyView::Applied(true),
            ),
            RequestView::SetTransactionStatus { uid, id, from, to } => if self.transactions.contains_key(
                (uid, id),
            ) && self.transactions[(uid, id)].status == from {
                (
                    StoreView {
                        transactions: self.transactions.insert(
                            (uid, id),
                            TransactionView { status: to, ..self.transactions[(uid, id)] },
                        ),
                        ..self
                    },
                    ReplyView::Applied(true),
                )
            } else {
                (self, ReplyView::Applied(false))
            },
            RequestView::GetTransactionStatus { uid, id } => (
                self,
                if self.transactions.contains_key((uid, id)) {
                    ReplyView::Status(self.transactions[(uid, id)].status)
                } else {
                    ReplyView::NotFound
                },
            ),
            RequestView::InsertCredit { credit } => if self.credits.contains_key(credit.key()) {
                (self, ReplyView::Applied(false))
            } else {
                (
                    StoreView { credits: self.credits.insert(credit.key(), credit), ..self },
                    ReplyView::Applied(true),
                )
            },
            RequestView::InsertCharge { charge } => if self.charges.contains_key(charge.key()) {
                (self, ReplyView::Applied(false))
            } else {
                (
                    StoreView { charges: self.charges.insert(charge.key(), charge), ..self },
                    ReplyView::Applied(true),
                )
            },
            RequestView::GetCharge { uid, id } => (
                self,
                if self.charges.contains_key((uid, id)) {
                    ReplyView::Charge(self.charges[(uid, id)])
                } else {
                    ReplyView::NotFound
                },
            ),
            RequestView::UpdateCharge {
                uid,
                id,
                expected_status,
                changes,
                updated_at,
            } => if self.charges.contains_key((uid, id)) && self.charges[(uid, id)].status
                == expected_status {
                (
                    StoreView {
                        charges: self.charges.insert(
                            (uid, id),
                            self.charges[(uid, id)].updated(changes, updated_at),
                        ),
                        ..self
                    },
                    ReplyView::Applied(true),
                )
            } else {
                (self, ReplyView::Applied(false))
            },
        }
    }
}

/// By which of its users a listing finds a transaction.
#[derive(Clone, Copy, Debug)]
pub enum Party {
    Payer,
    Payee,
    SubPayee,
}

/// Whether a listing for a user wants a transaction: the user is the
/// party asked for, and the kind is the one asked for, if one is.
pub open spec fn transaction_wanted(
    party: Party,
    uid: Id,
    kind: Option<Seq<char>>,
    t: TransactionView,
) -> bool {
    &&& match party {
        Party::Payer => t.uid == uid,
        Party::Payee => t.payee == uid,
        Party::SubPayee => t.sub_payee == Some(uid),
    }
    &&& (kind matches Some(k) ==> t.kind == k)
}

pub open spec fn transaction_filter(party: Party, uid: Id, kind: Option<Seq<char>>) -> spec_fn(
    TransactionView,
) -> bool {
    |t: TransactionView| transaction_wanted(party, uid, kind, t)
}

/// Whether a listing for a user wants a credit entry.
pub open spec fn credit_wanted(uid: Id, kind: Option<Seq<char>>, c: CreditView) -> bool {
    c.uid == uid && (kind matches Some(k) ==> c.kind == k)
}

pub open spec fn credit_filter(uid: Id, kind: Option<Seq<char>>) -> spec_fn(CreditView) -> bool {
    |c: CreditView| credit_wanted(uid, kind, c)
}

/// Whether a listing for a user wants a charge.
pub open spec fn charge_wanted(uid: Id, status: Option<int>, c: ChargeView) -> bool {
    c.uid == uid && (status matches Some(s) ==> c.status == s)
}

pub open spec fn charge_filter(uid: Id, status: Option<int>) -> spec_fn(ChargeView) -> bool {
    |c: ChargeView| charge_wanted(uid, status, c)
}

/// What a text that may be absent holds.
pub open spec fn text_view(s: Option<String>) -> Option<Seq<char>> {
    match s {
        Some(t) => Some(t@),
        None => None,
    }
}

/// A store in memory. It never fails and nothing else writes to it.
pub struct MemStore {
    wallets: Table<Wallet>,
    transactions: Table<Transaction>,
    credits: Table<Credit>,
    charges: Table<Charge>,
}

impl View for MemStore {
    type V = StoreView;

    closed spec fn view(&self) -> StoreView {
        StoreView {
            wallets: Map::new(
                |uid: Id| self.wallets.model().contains_key((uid, sys_id())),
                |uid: Id| self.wallets.model()[(uid, sys_id())],
            ),
            transactions: self.transactions.model(),
            credits: self.credits.model(),
            charges: self.charges.model(),
        }
    }
}

impl MemStore {
    /// No key occurs twice in any table.
    pub closed spec fn wf(&self) -> bool {
        &&& self.wallets.wf()
        &&& self.transactions.wf()
        &&& self.credits.wf()
        &&& self.charges.wf()
    }

    /// Every row is stored under its own key, and the numbers of every
    /// stored wallet and transaction fit their columns.
    pub proof fn lemma_keys(&self)
        requires
            self.wf(),
        ensures
            forall|uid: Id| #[trigger]
                self@.wallets.contains_key(uid) ==> self@.wallets[uid].uid == uid
                    && self@.wallets[uid].fits(),
            forall|k: (Id, Id)| #[trigger]
                self@.transactions.contains_key(k) ==> self@.transactions[k].key() == k
                    && self@.transactions[k].fits(),
            forall|k: (Id, Id)| #[trigger]
                self@.credits.contains_key(k) ==> self@.credits[k].key() == k,
            forall|k: (Id, Id)| #[trigger]
                self@.charges.contains_key(k) ==> self@.charges[k].key() == k,
    {
        self.wallets.lemma_keys();
        self.transactions.lemma_keys();
        self.credits.lemma_keys();
        self.charges.lemma_keys();
        assert forall|uid: Id| #[trigger] self@.wallets.contains_key(uid) implies self@.wallets[uid].uid
            == uid && self@.wallets[uid].fits() by {
            assert(self.wallets.model().contains_key((uid, sys_id())));
            let w = choose|w: Wallet| w@ == self.wallets.model()[(uid, sys_id())];
            assert(w@.fits());
        }
        assert forall|k: (Id, Id)| #[trigger] self@.transactions.contains_key(k) implies self@.transactions[k].fits() by {
            let t = choose|t: Transaction| t@ == self.transactions.model()[k];
            assert(t@.fits());
        }
    }

    /// A store without rows.
    pub fn new() -> (r: MemStore)
        ensures
            r.wf(),
            r@ == StoreView::empty(),
    {
        let r = MemStore {
            wallets: Table::new(),
            transactions: Table::new(),
            credits: Table::new(),
            charges: Table::new(),
        };
        assert(r@.wallets =~= Map::<Id, WalletView>::empty());
        r
    }

    /// A copy of a user's wallet, if the user has one.
    pub fn wallet(&self, uid: Id) -> (r: Option<Wallet>)
        requires
            self.wf(),
        ensures
            r is Some <==> self@.wallets.contains_key(uid),
            r is Some ==> r->0@ == self@.wallets[uid],
    {
        self.wallets.get((uid, sys_id()))
    }

    /// A copy of a transaction, if it is stored.
    pub fn transaction(&self, uid: Id, id: Id) -> (r: Option<Transaction>)
        requires
            self.wf(),
        ensures
            r is Some <==> self@.transactions.contains_key((uid, id)),
            r is Some ==> r->0@ == self@.transactions[(uid, id)],
    {
        self.transactions.get((uid, id))
    }

    /// A copy of a credit entry, if it is stored.
    pub fn credit(&self, uid: Id, txn: Id) -> (r: Option<Credit>)
        requires
            self.wf(),
        ensures
            r is Some <==> self@.credits.contains_key((uid, txn)),
            r is Some ==> r->0@ == self@.credits[(uid, txn)],
    {
        self.credits.get((uid, txn))
    }

    /// A copy of a charge, if it is stored.
    pub fn charge(&self, uid: Id, id: Id) -> (r: Option<Charge>)
        requires
            self.wf(),
        ensures
            r is Some <==> self@.charges.contains_key((uid, id)),
            r is Some ==> r->0@ == self@.charges[(uid, id)],
    {
        self.charges.get((uid, id))
    }

    /// The newest transactions below an identifier that a listing for a
    /// user wants, at most `limit` of them, newest first.
    pub fn list_transactions(
        &self,
        party: Party,
        uid: Id,
        kind: Option<String>,
        below: Id,
        limit: usize,
    ) -> (r: Vec<Transaction>)
        requires
            self.wf(),
        ensures
            is_newest_page::<Transaction>(
                row_views(r@),
                self@.transactions,
                transaction_filter(party, uid, text_view(kind)),
                below.spec_value(),
                limit as int,
            ),
    {
        let ghost wanted = transaction_filter(party, uid, text_view(kind));
        let mut marks: Vec<bool> = Vec::new();
        let n: usize = self.transactions.len();
        let mut i: usize = 0;
        while i < n
            invariant
                i <= n,
                n == self.transactions.views().len(),
                marks@.len() == i,
                wanted == transaction_filter(party, uid, text_view(kind)),
                forall|j: int| 0 <= j < i ==> marks@[j] == wanted(#[trigger] self.transactions.views()[j]),
            decreases n - i,
        {
            let t: &Transaction = self.transactions.row(i);
            let party_ok: bool = match party {
                Party::Payer => t.uid == uid,
                Party::Payee => t.payee == uid,
                Party::SubPayee => match t.sub_payee {
                    Some(s) => s == uid,
                    None => false,
                },
            };
            let kind_ok: bool = match &kind {
                Some(k) => t.kind == *k,
                None => true,
            };
            marks.push(party_ok && kind_ok);
            i += 1;
        }
        self.transactions.newest(&marks, Ghost(wanted), below, limit)
    }

    /// The newest credit entries below an identifier that a listing for a
    /// user wants, at most `limit` of them, newest first.
    pub fn list_credits(&self, uid: Id, kind: Option<String>, below: Id, limit: usize) -> (r: Vec<
        Credit,
    >)
        requires
            self.wf(),
        ensures
            is_newest_page::<Credit>(
                row_views(r@),
                self@.credits,
                credit_filter(uid, text_view(kind)),
                below.spec_value(),
                limit as int,
            ),
    {
        let ghost wanted = credit_filter(uid, text_view(kind));
        let mut marks: Vec<bool> = Vec::new();
        let n: usize = self.credits.len();
        let mut i: usize = 0;
        while i < n
            invariant
                i <= n,
                n == self.credits.views().len(),
                marks@.len() == i,
                wanted == credit_filter(uid, text_view(kind)),
                forall|j: int| 0 <= j < i ==> marks@[j] == wanted(#[trigger] self.credits.views()[j]),
            decreases n - i,
        {
            let c: &Credit = self.credits.row(i);
            let kind_ok: bool = match &kind {
                Some(k) => c.kind == *k,
                None => true,
            };
            marks.push(c.uid == uid && kind_ok);
            i += 1;
        }
        self.credits.newest(&marks, Ghost(wanted), below, limit)
    }

    /// The newest charges below an identifier that a listing for a user
    /// wants, at most `limit` of them, newest first.
    pub fn list_charges(&self, uid: Id, status: Option<i8>, below: Id, limit: usize) -> (r: Vec<
        Charge,
    >)
        requires
            self.wf(),
        ensures
            is_newest_page::<Charge>(
                row_views(r@),
                self@.charges,
                charge_filter(
                    uid,
                    match status {
                        Some(s) => Some(s as int),
                        None => None,
                    },
                ),
                below.spec_value(),
                limit as int,
            ),
    {
        let ghost wanted = charge_filter(
            uid,
            match status {
                Some(s) => Some(s as int),
                None => None,
            },
        );
        let mut marks: Vec<bool> = Vec::new();
        let n: usize = self.charges.len();
        let mut i: usize = 0;
        while i < n
            invariant
                i <= n,
                n == self.charges.views().len(),
                marks@.len() == i,
                wanted == charge_filter(
                    uid,
                    match status {
                        Some(s) => Some(s as int),
                        None => None,
                    },
                ),
                forall|j: int| 0 <= j < i ==> marks@[j] == wanted(#[trigger] self.charges.views()[j]),
            decreases n - i,
        {
            let c: &Charge = self.charges.row(i);
            let status_ok: bool = match status {
                Some(s) => c.status == s,
                None => true,
            };
            marks.push(c.uid == uid && status_ok);
            i += 1;
        }
        self.charges.newest(&marks, Ghost(wanted), below, limit)
    }

    /// Inserts a wallet as it is given, unless the user has one; tells
    /// whether it was inserted.
    pub fn insert_wallet(&mut self, wallet: Wallet) -> (applied: bool)
        requires
            old(self).wf(),
        ensures
            final(self).wf(),
            applied == !old(self)@.wallets.contains_key(wallet.uid),
            final(self)@ == if applied {
                StoreView { wallets: old(self)@.wallets.insert(wallet.uid, wallet@), ..old(self)@ }
            } else {
                old(self)@
            },
    {
        let ghost before = self@;
        let ghost wv = wallet@;
        let applied: bool = self.wallets.insert_if_absent(wallet);
        assert(applied ==> self@.wallets =~= before.wallets.insert(wv.uid, wv));
        assert(!applied ==> self@.wallets =~= before.wallets);
        applied
    }

    /// Writes a wallet as it is given, in the place of the one the user
    /// has or as a new row: what a writer does that goes round the ledger.
    pub fn put_wallet(&mut self, wallet: Wallet)
        requires
            old(self).wf(),
        ensures
            final(self).wf(),
            final(self)@ == (StoreView {
                wallets: old(self)@.wallets.insert(wallet.uid, wallet@),
                ..old(self)@
            }),
    {
        let ghost before = self@;
        let ghost wv = wallet@;
        let copy: Wallet = wallet.clone();
        if !self.wallets.replace(wallet) {
            let _ = self.wallets.insert_if_absent(copy);
        }
        assert(self@.wallets =~= before.wallets.insert(wv.uid, wv));
    }

    /// Carries out a request and answers it.
    pub fn execute(&mut self, request: Request) -> (reply: Reply)
        requires
            old(self).wf(),
        ensures
            final(self).wf(),
            (final(self)@, reply@) == old(self)@.apply(request@),
    {
        let ghost before = self@;
        match request {
            Request::GetWallet { uid } => match self.wallets.get((uid, sys_id())) {
                Some(w) => Reply::Wallet(w),
                None => Reply::NotFound,
            },
            Request::CreateWallet { uid } => {
                let applied: bool = self.wallets.insert_if_absent(Wallet::with_pk(uid));
                assert(applied ==> self@.wallets =~= before.wallets.insert(
                    uid,
                    WalletView::fresh(uid),
                ));
                assert(!applied ==> self@.wallets =~= before.wallets);
                Reply::Applied(applied)
            },
            Request::UpdateBalance { wallet, expected_sequence } => {
                match self.wallets.get((wallet.uid, sys_id())) {
                    Some(cur) => {
                        if cur.sequence == expected_sequence {
                            let mut next: Wallet = wallet;
                            next.credits = cur.credits;
                            let ghost nv = next@;
                            let _ = self.wallets.replace(next);
                            assert(self@.wallets =~= before.wallets.insert(nv.uid, nv));
                            Reply::Applied(true)
                        } else {
                            Reply::Applied(false)
                        }
                    },
                    None => Reply::Applied(false),
                }
            },
            Request::UpdateCredits { uid, credits, expected } => {
                match self.wallets.get((uid, sys_id())) {
                    Some(cur) => {
                        if cur.credits == expected {
                            let mut next: Wallet = cur;
                            next.credits = credits;
                            let ghost nv = next@;
                            let _ = self.wallets.replace(next);
                            assert(self@.wallets =~= before.wallets.insert(uid, nv));
                            Reply::Applied(true)
                        } else {
                            Reply::Applied(false)
                        }
                    },
                    None => Reply::Applied(false),
                }
            },
            Request::InsertTransaction { txn } => {
                let applied: bool = self.transactions.insert_if_absent(txn);
                assert(self@.wallets =~= before.wallets);
                Reply::Applied(applied)
            },
            Request::DeleteTransaction { uid, id } => {
                self.transactions.remove((uid, id));
                assert(self@.wallets =~= before.wallets);
                Reply::Applied(true)
            },
            Request::SetTransactionStatus { uid, id, from, to } => {
                match self.transactions.get((uid, id)) {
                    Some(cur) => {
                        if cur.status == from {
                            let mut next: Transaction = cur;
                            next.status = to;
                            let _ = self.transactions.replace(next);
                            assert(self@.wallets =~= before.wallets);
                            Reply::Applied(true)
                        } else {
                            Reply::Applied(false)
                        }
                    },
                    None => Reply::Applied(false),
                }
            },
            Request::GetTransactionStatus { uid, id } => match self.transactions.get((uid, id)) {
                Some(t) => Reply::Status(t.status),
                None => Reply::NotFound,
            },
            Request::InsertCredit { credit } => {
                let applied: bool = self.credits.insert_if_absent(credit);
                assert(self@.wallets =~= before.wallets);
                Reply::Applied(applied)
            },
            Request::InsertCharge { charge } => {
                let applied: bool = self.charges.insert_if_absent(charge);
                assert(self@.wallets =~= before.wallets);
                Reply::Applied(applied)
            },
            Request::GetCharge { uid, id } => match self.charges.get((uid, id)) {
                Some(c) => Reply::Charge(c),
                None => Reply::NotFound,
            },
            Request::UpdateCharge { uid, id, expected_status, changes, updated_at } => {
                match self.charges.get((uid, id)) {
                    Some(cur) => {
                        if cur.status == expected_status {
                            let mut next: Charge = cur;
                            next.fill(changes, updated_at);
                            let _ = self.charges.replace(next);
                            assert(self@.wallets =~= before.wallets);
                            Reply::Applied(true)
                        } else {
                            Reply::Applied(false)
                        }
                    },
                    None => Reply::Applied(false),
                }
            },
        }
    }
}

} // verus!
