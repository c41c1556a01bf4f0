//! What follows a user's first top-up: the user's credits are started, and
//! who referred the user is rewarded.

use vstd::prelude::*;

use crate::credit::{Credit, CreditKind, CreditView};
use crate::id::Id;

verus! {

/// The credits that start a user's counter after the first top-up.
pub const FIRST_TOPUP_CREDITS: i64 = 10;

/// The award to who referred a user, after the user's first top-up.
pub const REFERRAL_REWARD: i64 = 50;

/// Whether a completed charge was the user's first top-up: the user had no
/// credits before it, and the charge was not yet confirmed.
pub fn is_first_topup(credits_before: i64, status_before: i8) -> (r: bool)
    ensures
        r == (credits_before == 0 && status_before < 2),
{
    credits_before == 0 && status_before < 2
}

/// The award entry that starts the credits of a user, for the transaction
/// of the first top-up.
pub fn first_topup_credit(uid: Id, txn: Id) -> (r: Credit)
    ensures
        r@ == (CreditView {
            uid,
            txn,
            kind: CreditKind::Award.name(),
            amount: FIRST_TOPUP_CREDITS as int,
            description: "member.active"@,
        }),
{
    Credit {
        uid,
        txn,
        kind: CreditKind::Award.to_string(),
        amount: FIRST_TOPUP_CREDITS,
        description: "member.active".to_owned(),
    }
}

/// Whether who referred a user is rewarded: the referrer has a wallet and
/// has credits of its own.
pub fn referral_due(referrer_credits: Option<i64>) -> (r: bool)
    ensures
        r == (referrer_credits matches Some(c) && c > 0),
{
    match referrer_credits {
        Some(c) => c > 0,
        None => false,
    }
}

} // verus!
