//! The credit side-ledger: one row per user and transaction, appended once.

use vstd::prelude::*;

use crate::error::Error;
use crate::id::{sys_id, Id};

verus! {

/// Why credits were earned.
#[derive(Clone, Copy, Debug, PartialEq, Eq, Structural)]
pub enum CreditKind {
    /// Granted by the system; the first award starts a user's counter.
    Award,
    /// Earned by paying.
    Payout,
    /// Earned by being paid.
    Income,
}

impl CreditKind {
    /// The lower-case name under which the kind is stored.
    pub open spec fn name(self) -> Seq<char> {
        match self {
            CreditKind::Award => "award"@,
            CreditKind::Payout => "payout"@,
            CreditKind::Income => "income"@,
        }
    }

    /// The kind stored under a name: one of the three names, or one of the
    /// names `init` and `expenditure` that older rows carry for an award
    /// and a payout.
    pub open spec fn parse(s: Seq<char>) -> Option<CreditKind> {
        if s == "award"@ || s == "init"@ {
            Some(CreditKind::Award)
        } else if s == "payout"@ || s == "expenditure"@ {
            Some(CreditKind::Payout)
        } else if s == "income"@ {
            Some(CreditKind::Income)
        } else {
            None
        }
    }

    /// Every kind is found again under its own name.
    pub proof fn law_parse_name(self)
        ensures
            Self::parse(self.name()) == Some(self),
    {
        reveal_strlit("award");
        reveal_strlit("init");
        reveal_strlit("payout");
        reveal_strlit("expenditure");
        reveal_strlit("income");
        assert("award"@.len() == 5 && "init"@.len() == 4 && "expenditure"@.len() == 11);
        assert("payout"@.len() == 6 && "income"@.len() == 6);
        assert("income"@[1] != "payout"@[1]);
    }

    pub fn as_ref(&self) -> (r: &'static str)
        ensures
            r@ == self.name(),
    {
        match self {
            CreditKind::Award => "award",
            CreditKind::Payout => "payout",
            CreditKind::Income => "income",
        }
    }

    pub fn to_string(&self) -> (r: String)
        ensures
            r@ == self.name(),
    {
        self.as_ref().to_owned()
    }

    /// Reads a kind from its stored name, the older names included. Any
    /// other text is refused.
    pub fn from_str(s: &str) -> (r: Result<CreditKind, Error>)
        ensures
            r == match Self::parse(s@) {
                Some(k) => Ok::<CreditKind, Error>(k),
                None => Err::<CreditKind, Error>(Error::InvalidArgument),
            },
    {
        let t: String = s.to_owned();
        if t == "award".to_owned() || t == "init".to_owned() {
            Ok(CreditKind::Award)
        } else if t == "payout".to_owned() || t == "expenditure".to_owned() {
            Ok(CreditKind::Payout)
        } else if t == "income".to_owned() {
            Ok(CreditKind::Income)
        } else {
            Err(Error::InvalidArgument)
        }
    }
}

/// One entry of a user's credit log, keyed by `(uid, txn)`.
#[derive(Debug)]
pub struct Credit {
    pub uid: Id,
    pub txn: Id,
    pub kind: String,
    pub amount: i64,
    pub description: String,
}

/// What a credit entry holds, as mathematical values.
pub ghost struct CreditView {
    pub uid: Id,
    pub txn: Id,
    pub kind: Seq<char>,
    pub amount: int,
    pub description: Seq<char>,
}

impl CreditView {
    pub open spec fn key(self) -> (Id, Id) {
        (self.uid, self.txn)
    }
}

impl View for Credit {
    type V = CreditView;

    open spec fn view(&self) -> CreditView {
        CreditView {
            uid: self.uid,
            txn: self.txn,
            kind: self.kind@,
            amount: self.amount as int,
            description: self.description@,
        }
    }
}

impl Default for Credit {
    fn default() -> (r: Credit)
        ensures
            r@ == (CreditView {
                uid: sys_id(),
                txn: sys_id(),
                kind: Seq::empty(),
                amount: 0,
                description: Seq::empty(),
            }),
    {
        Credit::with_pk(sys_id(), sys_id())
    }
}

impl Clone for Credit {
    fn clone(&self) -> (r: Credit)
        ensures
            r@ == self@,
    {
        Credit {
            uid: self.uid,
            txn: self.txn,
            kind: self.kind.clone(),
            amount: self.amount,
            description: self.description.clone(),
        }
    }
}

impl Credit {
    /// An empty entry for a user and a transaction.
    pub fn with_pk(uid: Id, txn: Id) -> (r: Credit)
        ensures
            r@ == (CreditView {
                uid,
                txn,
                kind: Seq::empty(),
                amount: 0,
                description: Seq::empty(),
            }),
    {
        Credit { uid, txn, kind: String::new(), amount: 0, description: String::new() }
    }
}

} // verus!
