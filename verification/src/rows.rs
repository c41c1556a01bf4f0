//! Single rows on the store in memory: reading one, inserting one, and the
//! conditional writes of a wallet's balance and of a charge's status.

use vstd::prelude::*;

use crate::charge::{Charge, ChargeUpdate, ChargeUpdateView};
use crate::credit::Credit;
use crate::error::Error;
use crate::fields::{
    names, spec_select, CHARGE_COLUMNS, CHARGE_KEY, CHARGE_REQUIRED, CREDIT_COLUMNS, CREDIT_KEY,
    CREDIT_REQUIRED, TRANSACTION_COLUMNS, TRANSACTION_KEY, TRANSACTION_REQUIRED,
};
use crate::store::{MemStore, Reply, ReplyView, Request, RequestView, StoreView};
use crate::text::texts;
use crate::transaction::Transaction;
use crate::wallet::Wallet;

verus! {

impl Wallet {
    /// Reads the wallet of this wallet's user from the store.
    pub fn get_one(&mut self, db: &MemStore) -> (r: Result<(), Error>)
        requires
            db.wf(),
        ensures
            if db@.wallets.contains_key(old(self).uid) {
                r is Ok && final(self)@ == db@.wallets[old(self).uid]
            } else {
                r == Err::<(), Error>(Error::NotFound) && final(self)@ == old(self)@
            },
    {
        match db.wallet(self.uid) {
            Some(w) => {
                *self = w;
                Ok(())
            },
            None => Err(Error::NotFound),
        }
    }

    /// Inserts this wallet as it is, unless its user has one; tells
    /// whether it was inserted.
    pub fn save(&mut self, db: &mut MemStore) -> (r: Result<bool, Error>)
        requires
            old(db).wf(),
        ensures
            final(db).wf(),
            final(self)@ == old(self)@,
            r == Ok::<bool, Error>(!old(db)@.wallets.contains_key(old(self).uid)),
            final(db)@ == if r->Ok_0 {
                StoreView {
                    wallets: old(db)@.wallets.insert(old(self).uid, old(self)@),
                    ..old(db)@
                }
            } else {
                old(db)@
            },
    {
        Ok(db.insert_wallet(self.clone()))
    }

    /// Writes sequence, buckets, last transaction and checksum of this
    /// wallet to the store, if the stored sequence is one below this
    /// wallet's; tells whether the write applied.
    pub fn update_balance(&mut self, db: &mut MemStore) -> (r: Result<bool, Error>)
        requires
            old(db).wf(),
            old(self).sequence > i64::MIN,
        ensures
            final(db).wf(),
            final(self)@ == old(self)@,
            r is Ok,
            (final(db)@, ReplyView::Applied(r->Ok_0)) == old(db)@.apply(
                RequestView::UpdateBalance {
                    wallet: old(self)@,
                    expected_sequence: old(self).sequence - 1,
                },
            ),
    {
        let reply = db.execute(
            Request::UpdateBalance { wallet: self.clone(), expected_sequence: self.sequence - 1 },
        );
        match reply {
            Reply::Applied(applied) => Ok(applied),
            _ => Ok(false),
        }
    }
}

impl Transaction {
    /// Reads the transaction with this transaction's key from the store.
    /// A selection of unknown columns is refused.
    pub fn get_one(&mut self, db: &MemStore, select_fields: Vec<String>) -> (r: Result<(), Error>)
        requires
            db.wf(),
        ensures
            match spec_select(
                names(TRANSACTION_COLUMNS@),
                texts(select_fields@),
                names(TRANSACTION_REQUIRED@),
                names(TRANSACTION_KEY@),
                false,
            ) {
                Err(e) => r == Err::<(), Error>(e) && final(self)@ == old(self)@,
                Ok(_) => if db@.transactions.contains_key(old(self)@.key()) {
                    r is Ok && final(self)@ == db@.transactions[old(self)@.key()]
                } else {
                    r == Err::<(), Error>(Error::NotFound) && final(self)@ == old(self)@
                },
            },
    {
        match Transaction::select_fields(select_fields, false) {
            Err(e) => Err(e),
            Ok(_) => match db.transaction(self.uid, self.id) {
                Some(t) => {
                    *self = t;
                    Ok(())
                },
                None => Err(Error::NotFound),
            },
        }
    }
}

impl Credit {
    /// Reads the credit entry with this entry's key from the store. A
    /// selection of unknown columns is refused.
    pub fn get_one(&mut self, db: &MemStore, select_fields: Vec<String>) -> (r: Result<(), Error>)
        requires
            db.wf(),
        ensures
            match spec_select(
                names(CREDIT_COLUMNS@),
                texts(select_fields@),
                names(CREDIT_REQUIRED@),
                names(CREDIT_KEY@),
                false,
            ) {
                Err(e) => r == Err::<(), Error>(e) && final(self)@ == old(self)@,
                Ok(_) => if db@.credits.contains_key(old(self)@.key()) {
                    r is Ok && final(self)@ == db@.credits[old(self)@.key()]
                } else {
                    r == Err::<(), Error>(Error::NotFound) && final(self)@ == old(self)@
                },
            },
    {
        match Credit::select_fields(select_fields, false) {
            Err(e) => Err(e),
            Ok(_) => match db.credit(self.uid, self.txn) {
                Some(c) => {
                    *self = c;
                    Ok(())
                },
                None => Err(Error::NotFound),
            },
        }
    }
}

impl Charge {
    /// Reads the charge with this charge's key from the store. A selection
    /// of unknown columns is refused.
    pub fn get_one(&mut self, db: &MemStore, select_fields: Vec<String>) -> (r: Result<(), Error>)
        requires
            db.wf(),
        ensures
            match spec_select(
                names(CHARGE_COLUMNS@),
                texts(select_fields@),
                names(CHARGE_REQUIRED@),
                names(CHARGE_KEY@),
                false,
            ) {
                Err(e) => r == Err::<(), Error>(e) && final(self)@ == old(self)@,
                Ok(_) => if db@.charges.contains_key(old(self)@.key()) {
                    r is Ok && final(self)@ == db@.charges[old(self)@.key()]
                } else {
                    r == Err::<(), Error>(Error::NotFound) && final(self)@ == old(self)@
                },
            },
    {
        match Charge::select_fields(select_fields, false) {
            Err(e) => Err(e),
            Ok(_) => match db.charge(self.uid, self.id) {
                Some(c) => {
                    *self = c;
                    Ok(())
                },
                None => Err(Error::NotFound),
            },
        }
    }

    /// Moves the status of the stored charge from `from` to `to`, if it is
    /// `from`; tells whether it was moved. This charge then has the status
    /// that is stored. A charge that is not stored is not found.
    pub fn set_status(&mut self, db: &mut MemStore, from: i8, to: i8) -> (r: Result<bool, Error>)
        requires
            old(db).wf(),
        ensures
            final(db).wf(),
            ({
                let k = old(self)@.key();
                if !old(db)@.charges.contains_key(k) {
                    &&& r == Err::<bool, Error>(Error::NotFound)
                    &&& final(db)@ == old(db)@
                    &&& final(self)@ == old(self)@
                } else {
                    let row = old(db)@.charges[k];
                    let applied = row.status == from;
                    &&& r == Ok::<bool, Error>(applied)
                    &&& final(self)@ == (crate::charge::ChargeView {
                        status: if applied { to as int } else { row.status },
                        ..old(self)@
                    })
                    &&& final(db)@ == if applied {
                        StoreView {
                            charges: old(db)@.charges.insert(
                                k,
                                crate::charge::ChargeView { status: to as int, ..row },
                            ),
                            ..old(db)@
                        }
                    } else {
                        old(db)@
                    }
                }
            }),
    {
        let row: Charge = match db.charge(self.uid, self.id) {
            Some(c) => c,
            None => {
                return Err(Error::NotFound);
            },
        };
        let mut changes: ChargeUpdate = ChargeUpdate::default();
        changes.status = Some(to);
        let ghost before = db@;
        let ghost rv = row@;
        proof {
            db.lemma_keys();
        }
        let reply = db.execute(
            Request::UpdateCharge {
                uid: self.uid,
                id: self.id,
                expected_status: from,
                changes,
                updated_at: row.updated_at,
            },
        );
        let applied: bool = match reply {
            Reply::Applied(a) => a,
            _ => false,
        };
        if applied {
            self.status = to;
            assert(rv.updated(
                ChargeUpdateView { status: Some(to as int), ..ChargeUpdateView::none() },
                rv.updated_at,
            ) == (crate::charge::ChargeView { status: to as int, ..rv }));
        } else {
            self.status = row.status;
        }
        Ok(applied)
    }
}

} // verus!
