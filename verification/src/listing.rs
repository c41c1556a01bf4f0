//! Listings by pages: the rows of one user below a token, newest first.

use vstd::prelude::*;

use crate::charge::Charge;
use crate::credit::{Credit, CreditKind};
use crate::error::Error;
use crate::fields::{
    names, spec_select, CHARGE_COLUMNS, CHARGE_KEY, CHARGE_REQUIRED, CREDIT_COLUMNS, CREDIT_KEY,
    CREDIT_REQUIRED, TRANSACTION_COLUMNS, TRANSACTION_KEY, TRANSACTION_REQUIRED,
};
use crate::id::{max_id, Id};
use crate::kind::TransactionKind;
use crate::paging::scan_below;
use crate::store::{charge_filter, credit_filter, transaction_filter, MemStore, Party};
use crate::table::{is_newest_page, row_views};
use crate::text::texts;
use crate::transaction::Transaction;

verus! {

/// The number below which a page reads: that of the token, or that of the
/// greatest identifier where there is no token.
pub open spec fn bound_of(token: Option<Id>) -> int {
    match token {
        Some(id) => id.spec_value(),
        None => max_id().spec_value(),
    }
}

/// The name of a kind that may be absent.
pub open spec fn kind_name(kind: Option<TransactionKind>) -> Option<Seq<char>> {
    match kind {
        Some(k) => Some(k.name()),
        None => None,
    }
}

fn kind_text(kind: Option<TransactionKind>) -> (r: Option<String>)
    ensures
        crate::store::text_view(r) == kind_name(kind),
{
    match kind {
        Some(k) => Some(k.to_string()),
        None => None,
    }
}

impl Transaction {
    fn page(
        db: &MemStore,
        party: Party,
        uid: Id,
        select_fields: Vec<String>,
        page_size: u16,
        page_token: Option<Id>,
        kind: Option<TransactionKind>,
    ) -> (r: Result<Vec<Transaction>, Error>)
        requires
            db.wf(),
        ensures
            match spec_select(
                names(TRANSACTION_COLUMNS@),
                texts(select_fields@),
                names(TRANSACTION_REQUIRED@),
                names(TRANSACTION_KEY@),
                true,
            ) {
                Ok(_) => r is Ok && is_newest_page::<Transaction>(
                    row_views(r->Ok_0@),
                    db@.transactions,
                    transaction_filter(party, uid, kind_name(kind)),
                    bound_of(page_token),
                    page_size as int,
                ),
                Err(e) => r is Err && r->Err_0 == e,
            },
    {
        match Transaction::select_fields(select_fields, true) {
            Err(e) => Err(e),
            Ok(_) => Ok(
                db.list_transactions(
                    party,
                    uid,
                    kind_text(kind),
                    scan_below(page_token),
                    page_size as usize,
                ),
            ),
        }
    }

    /// A page of the transactions that a user paid, newest first, below
    /// the token of the page before, of the given kind if one is given. A
    /// selection of unknown columns is refused.
    pub fn list(
        db: &MemStore,
        uid: Id,
        select_fields: Vec<String>,
        page_size: u16,
        page_token: Option<Id>,
        kind: Option<TransactionKind>,
    ) -> (r: Result<Vec<Transaction>, Error>)
        requires
            db.wf(),
        ensures
            match spec_select(
                names(TRANSACTION_COLUMNS@),
                texts(select_fields@),
                names(TRANSACTION_REQUIRED@),
                names(TRANSACTION_KEY@),
                true,
            ) {
                Ok(_) => r is Ok && is_newest_page::<Transaction>(
                    row_views(r->Ok_0@),
                    db@.transactions,
                    transaction_filter(Party::Payer, uid, kind_name(kind)),
                    bound_of(page_token),
                    page_size as int,
                ),
                Err(e) => r is Err && r->Err_0 == e,
            },
    {
        Transaction::page(db, Party::Payer, uid, select_fields, page_size, page_token, kind)
    }

    /// A page of the transactions that were paid to a user.
    pub fn list_by_payee(
        db: &MemStore,
        payee: Id,
        select_fields: Vec<String>,
        page_size: u16,
        page_token: Option<Id>,
        kind: Option<TransactionKind>,
    ) -> (r: Result<Vec<Transaction>, Error>)
        requires
            db.wf(),
        ensures
            match spec_select(
                names(TRANSACTION_COLUMNS@),
                texts(select_fields@),
                names(TRANSACTION_REQUIRED@),
                names(TRANSACTION_KEY@),
                true,
            ) {
                Ok(_) => r is Ok && is_newest_page::<Transaction>(
                    row_views(r->Ok_0@),
                    db@.transactions,
                    transaction_filter(Party::Payee, payee, kind_name(kind)),
                    bound_of(page_token),
                    page_size as int,
                ),
                Err(e) => r is Err && r->Err_0 == e,
            },
    {
        Transaction::page(db, Party::Payee, payee, select_fields, page_size, page_token, kind)
    }

    /// A page of the transactions that gave a user a share as the second
    /// payee.
    pub fn list_by_sub_payee(
        db: &MemStore,
        sub_payee: Id,
        select_fields: Vec<String>,
        page_size: u16,
        page_token: Option<Id>,
        kind: Option<TransactionKind>,
    ) -> (r: Result<Vec<Transaction>, Error>)
        requires
            db.wf(),
        ensures
            match spec_select(
                names(TRANSACTION_COLUMNS@),
                texts(select_fields@),
                names(TRANSACTION_REQUIRED@),
                names(TRANSACTION_KEY@),
                true,
            ) {
                Ok(_) => r is Ok && is_newest_page::<Transaction>(
                    row_views(r->Ok_0@),
                    db@.transactions,
                    transaction_filter(Party::SubPayee, sub_payee, kind_name(kind)),
                    bound_of(page_token),
                    page_size as int,
                ),
                Err(e) => r is Err && r->Err_0 == e,
            },
    {
        Transaction::page(
            db,
            Party::SubPayee,
            sub_payee,
            select_fields,
            page_size,
            page_token,
            kind,
        )
    }
}

impl Credit {
    /// A page of a user's credit entries, newest first, below the token of
    /// the page before, of the given kind if one is given. A selection of
    /// unknown columns is refused.
    pub fn list(
        db: &MemStore,
        uid: Id,
        select_fields: Vec<String>,
        page_size: u16,
        page_token: Option<Id>,
        kind: Option<CreditKind>,
    ) -> (r: Result<Vec<Credit>, Error>)
        requires
            db.wf(),
        ensures
            match spec_select(
                names(CREDIT_COLUMNS@),
                texts(select_fields@),
                names(CREDIT_REQUIRED@),
                names(CREDIT_KEY@),
                true,
            ) {
                Ok(_) => r is Ok && is_newest_page::<Credit>(
                    row_views(r->Ok_0@),
                    db@.credits,
                    credit_filter(
                        uid,
                        match kind {
                            Some(k) => Some(k.name()),
                            None => None,
                        },
                    ),
                    bound_of(page_token),
                    page_size as int,
                ),
                Err(e) => r is Err && r->Err_0 == e,
            },
    {
        match Credit::select_fields(select_fields, true) {
            Err(e) => Err(e),
            Ok(_) => {
                let text: Option<String> = match kind {
                    Some(k) => Some(k.to_string()),
                    None => None,
                };
                Ok(db.list_credits(uid, text, scan_below(page_token), page_size as usize))
            },
        }
    }
}

impl Charge {
    /// A page of a user's charges, newest first, below the token of the
    /// page before, of the given status if one is given. A selection of
    /// unknown columns is refused.
    pub fn list(
        db: &MemStore,
        uid: Id,
        select_fields: Vec<String>,
        page_size: u16,
        page_token: Option<Id>,
        status: Option<i8>,
    ) -> (r: Result<Vec<Charge>, Error>)
        requires
            db.wf(),
        ensures
            match spec_select(
                names(CHARGE_COLUMNS@),
                texts(select_fields@),
                names(CHARGE_REQUIRED@),
                names(CHARGE_KEY@),
                true,
            ) {
                Ok(_) => r is Ok && is_newest_page::<Charge>(
                    row_views(r->Ok_0@),
                    db@.charges,
                    charge_filter(
                        uid,
                        match status {
                            Some(s) => Some(s as int),
                            None => None,
                        },
                    ),
                    bound_of(page_token),
                    page_size as int,
                ),
                Err(e) => r is Err && r->Err_0 == e,
            },
    {
        match Charge::select_fields(select_fields, true) {
            Err(e) => Err(e),
            Ok(_) => Ok(db.list_charges(uid, status, scan_below(page_token), page_size as usize)),
        }
    }
}

} // verus!
