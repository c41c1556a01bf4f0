//! The transaction row and what follows from a committed one.

use vstd::prelude::*;

use crate::bytes::copy_bytes;
use crate::credit::{Credit, CreditKind, CreditView};
use crate::id::{sys_id, Id};
use crate::kind::TransactionKind;

verus! {

/// The life of a transaction, as the `status` column tells it.
pub const STATUS_DRAFT: i8 = 0;

pub const STATUS_PREPARED: i8 = 1;

pub const STATUS_COMMITTING: i8 = 2;

pub const STATUS_COMMITTED: i8 = 3;

pub const STATUS_CANCELLING: i8 = -1;

pub const STATUS_CANCELLED: i8 = -2;

/// The moves that the `status` column may make: a draft is prepared, a
/// prepared transaction starts committing or cancelling, and each of those
/// ends. Nothing leaves the committed or the cancelled state.
pub open spec fn status_move_allowed(from: int, to: int) -> bool {
    ||| from == 0 && to == 1
    ||| from == 1 && to == 2
    ||| from == 2 && to == 3
    ||| from == 1 && to == -1
    ||| from == -1 && to == -2
}

/// A transaction as it is stored, keyed by `(uid, id)`; `uid` is the payer.
#[derive(Debug)]
pub struct Transaction {
    pub uid: Id,
    pub id: Id,
    /// The payer's sequence when the transaction was prepared.
    pub sequence: i64,
    pub payee: Id,
    pub sub_payee: Option<Id>,
    pub status: i8,
    pub kind: String,
    pub amount: i64,
    pub sys_fee: i64,
    pub sub_shares: i64,
    pub description: String,
    pub payload: Vec<u8>,
}

/// What a transaction holds, as mathematical values.
pub ghost struct TransactionView {
    pub uid: Id,
    pub id: Id,
    pub sequence: int,
    pub payee: Id,
    pub sub_payee: Option<Id>,
    pub status: int,
    pub kind: Seq<char>,
    pub amount: int,
    pub sys_fee: int,
    pub sub_shares: int,
    pub description: Seq<char>,
    pub payload: Seq<u8>,
}

impl TransactionView {
    pub open spec fn key(self) -> (Id, Id) {
        (self.uid, self.id)
    }

    /// An empty draft of a payer.
    pub open spec fn empty(uid: Id, id: Id) -> TransactionView {
        TransactionView {
            uid,
            id,
            sequence: 0,
            payee: sys_id(),
            sub_payee: None,
            status: 0,
            kind: Seq::empty(),
            amount: 0,
            sys_fee: 0,
            sub_shares: 0,
            description: Seq::empty(),
            payload: Seq::empty(),
        }
    }

    /// Whether every number fits the column it is stored in.
    pub open spec fn fits(self) -> bool {
        &&& i64::MIN <= self.sequence <= i64::MAX
        &&& i8::MIN <= self.status <= i8::MAX
        &&& i64::MIN <= self.amount <= i64::MAX
        &&& i64::MIN <= self.sys_fee <= i64::MAX
        &&& i64::MIN <= self.sub_shares <= i64::MAX
    }

    /// What the payee receives: the amount less the system's fee and the
    /// second payee's share.
    pub open spec fn net(self) -> int {
        self.amount - self.sys_fee - self.sub_shares
    }

    /// The credit entries that a committed transaction gives rise to: a
    /// payout for the payer of a spend, a sponsorship or a subscription; an
    /// income for the payee of the last two; and an income for the second
    /// payee where it has a share. A transaction that is not committed, is
    /// paid by the system, or is of no known kind gives none.
    pub open spec fn credits(self) -> Seq<CreditView> {
        let kind = TransactionKind::parse(self.kind);
        if self.status != 3 || self.uid == sys_id() || kind is None {
            Seq::empty()
        } else {
            let k = kind->0;
            let payout = CreditView {
                uid: self.uid,
                txn: self.id,
                kind: CreditKind::Payout.name(),
                amount: self.amount,
                description: self.description,
            };
            let income = CreditView {
                uid: self.payee,
                txn: self.id,
                kind: CreditKind::Income.name(),
                amount: self.net(),
                description: self.description,
            };
            if k == TransactionKind::Spend {
                seq![payout]
            } else if k == TransactionKind::Sponsor || k == TransactionKind::Subscribe {
                if self.sub_shares > 0 && self.sub_payee is Some {
                    seq![
                        payout,
                        income,
                        CreditView {
                            uid: self.sub_payee->0,
                            txn: self.id,
                            kind: CreditKind::Income.name(),
                            amount: self.sub_shares,
                            description: self.description,
                        },
                    ]
                } else {
                    seq![payout, income]
                }
            } else {
                Seq::empty()
            }
        }
    }
}

impl View for Transaction {
    type V = TransactionView;

    open spec fn view(&self) -> TransactionView {
        TransactionView {
            uid: self.uid,
            id: self.id,
            sequence: self.sequence as int,
            payee: self.payee,
            sub_payee: self.sub_payee,
            status: self.status as int,
            kind: self.kind@,
            amount: self.amount as int,
            sys_fee: self.sys_fee as int,
            sub_shares: self.sub_shares as int,
            description: self.description@,
            payload: self.payload@,
        }
    }
}

impl Default for Transaction {
    fn default() -> (r: Transaction)
        ensures
            r@ == TransactionView::empty(sys_id(), sys_id()),
    {
        Transaction::with_pk(sys_id(), sys_id())
    }
}

impl Clone for Transaction {
    fn clone(&self) -> (r: Transaction)
        ensures
            r@ == self@,
    {
        Transaction {
            uid: self.uid,
            id: self.id,
            sequence: self.sequence,
            payee: self.payee,
            sub_payee: self.sub_payee,
            status: self.status,
            kind: self.kind.clone(),
            amount: self.amount,
            sys_fee: self.sys_fee,
            sub_shares: self.sub_shares,
            description: self.description.clone(),
            payload: copy_bytes(self.payload.as_slice()),
        }
    }
}

/// The views of the entries of a list of credits, in order.
pub open spec fn credit_views(v: Seq<Credit>) -> Seq<CreditView> {
    Seq::new(v.len(), |i: int| v[i]@)
}

impl Transaction {
    /// An empty draft with its key.
    pub fn with_pk(uid: Id, id: Id) -> (r: Transaction)
        ensures
            r@ == TransactionView::empty(uid, id),
    {
        Transaction {
            uid,
            id,
            sequence: 0,
            payee: sys_id(),
            sub_payee: None,
            status: 0,
            kind: String::new(),
            amount: 0,
            sys_fee: 0,
            sub_shares: 0,
            description: String::new(),
            payload: Vec::new(),
        }
    }

    /// An empty draft of a payer.
    pub fn with_uid(uid: Id) -> (r: Transaction)
        ensures
            r@ == TransactionView::empty(uid, sys_id()),
    {
        Transaction::with_pk(uid, sys_id())
    }

    /// The credit entries to append once this transaction is committed.
    pub fn credits(&self) -> (r: Vec<Credit>)
        requires
            i64::MIN <= self@.net() <= i64::MAX,
        ensures
            credit_views(r@) == self@.credits(),
    {
        let mut logs: Vec<Credit> = Vec::new();
        let kind = TransactionKind::from_str(self.kind.as_str());
        if self.status != 3 || self.uid.is_zero() {
            assert(credit_views(logs@) =~= self@.credits());
            return logs;
        }
        let k: TransactionKind = match kind {
            Ok(k) => k,
            Err(_) => {
                assert(credit_views(logs@) =~= self@.credits());
                return logs;
            },
        };
        match k {
            TransactionKind::Spend | TransactionKind::Sponsor | TransactionKind::Subscribe => {
                logs.push(
                    Credit {
                        uid: self.uid,
                        txn: self.id,
                        kind: CreditKind::Payout.to_string(),
                        amount: self.amount,
                        description: self.description.clone(),
                    },
                );
            },
            _ => {},
        }
        match k {
            TransactionKind::Sponsor | TransactionKind::Subscribe => {
                let net: i128 = self.amount as i128 - self.sys_fee as i128 - self.sub_shares as i128;
                logs.push(
                    Credit {
                        uid: self.payee,
                        txn: self.id,
                        kind: CreditKind::Income.to_string(),
                        amount: net as i64,
                        description: self.description.clone(),
                    },
                );
                if self.sub_shares > 0 {
                    if let Some(sub) = self.sub_payee {
                        logs.push(
                            Credit {
                                uid: sub,
                                txn: self.id,
                                kind: CreditKind::Income.to_string(),
                                amount: self.sub_shares,
                                description: self.description.clone(),
                            },
                        );
                    }
                }
            },
            _ => {},
        }
        assert(credit_views(logs@) =~= self@.credits());
        logs
    }
}

} // verus!
