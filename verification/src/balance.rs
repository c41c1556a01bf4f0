//! How each kind of transaction moves a wallet's buckets: the payer's
//! deduction, its rollback, and the payee's credit.

use vstd::prelude::*;

use crate::error::Error;
use crate::kind::TransactionKind;
use crate::wallet::{Wallet, WalletView};

verus! {

/// How far a spend may take a user's balance below zero. The overdraw is
/// kept as a negative top-up.
pub const MAX_OVERDRAW: i64 = 100;

/// One of a wallet's three balance buckets.
#[derive(Clone, Copy, Debug, PartialEq, Eq, Structural)]
pub enum Bucket {
    Award,
    Topup,
    Income,
}

impl WalletView {
    /// The wallet with `amount` added to one bucket.
    pub open spec fn credited(self, bucket: Bucket, amount: int) -> WalletView {
        match bucket {
            Bucket::Award => WalletView { award: self.award + amount, ..self },
            Bucket::Topup => WalletView { topup: self.topup + amount, ..self },
            Bucket::Income => WalletView { income: self.income + amount, ..self },
        }
    }

    /// What a stored user wallet keeps to: award and income are not
    /// negative, and the top-up is overdrawn by no more than the limit.
    pub open spec fn user_invariant(self) -> bool {
        self.award >= 0 && self.income >= 0 && self.topup >= -(MAX_OVERDRAW as int)
    }

    /// The wallet after `amount` is drawn from the award first, then from
    /// the top-up, then from the income; what is still missing after all
    /// three is kept as a negative top-up.
    pub open spec fn drained(self, amount: int) -> WalletView {
        let a = self.award - amount;
        if a >= 0 {
            WalletView { award: a, ..self }
        } else {
            let t = self.topup + a;
            if t >= 0 {
                WalletView { award: 0, topup: t, ..self }
            } else {
                let i = self.income + t;
                if i >= 0 {
                    WalletView { award: 0, topup: 0, income: i, ..self }
                } else {
                    WalletView { award: 0, topup: i, income: 0, ..self }
                }
            }
        }
    }
}

/// The bucket that receives what a committed transaction pays.
pub open spec fn payee_bucket(kind: TransactionKind) -> Bucket {
    match kind {
        TransactionKind::Award => Bucket::Award,
        TransactionKind::Topup | TransactionKind::Refund | TransactionKind::Withdraw => Bucket::Topup,
        TransactionKind::Spend | TransactionKind::Sponsor | TransactionKind::Subscribe => Bucket::Income,
    }
}

/// The bucket that a cancelled transaction gives the amount back to. What
/// was drawn for a spend, a sponsorship or a subscription comes back as
/// top-up, whatever bucket it was drawn from.
pub open spec fn rollback_bucket(kind: TransactionKind) -> Bucket {
    match kind {
        TransactionKind::Award => Bucket::Award,
        TransactionKind::Withdraw => Bucket::Income,
        _ => Bucket::Topup,
    }
}

/// How much of a user's wallet a transaction of this kind may draw.
pub open spec fn quota(kind: TransactionKind, w: WalletView) -> int {
    match kind {
        TransactionKind::Withdraw => w.income,
        TransactionKind::Refund => w.topup,
        TransactionKind::Spend => w.balance() + MAX_OVERDRAW,
        _ => w.balance(),
    }
}

/// The wallet with `amount` added to a bucket, where the bucket stays in
/// the range of a stored number.
pub open spec fn spec_credit(w: WalletView, bucket: Bucket, amount: int) -> Result<
    WalletView,
    Error,
> {
    let v = w.credited(bucket, amount);
    if v.fits() {
        Ok(v)
    } else {
        Err(Error::Overflow)
    }
}

/// The payer's wallet after `amount` is taken for a transaction of this
/// kind, or why it cannot be taken.
pub open spec fn spec_sub_payer_balance(kind: TransactionKind, w: WalletView, amount: int) -> Result<
    WalletView,
    Error,
> {
    if w.is_system() {
        match kind {
            TransactionKind::Award => spec_credit(w, Bucket::Award, -amount),
            TransactionKind::Topup => spec_credit(w, Bucket::Topup, -amount),
            _ => Err(Error::InvalidArgument),
        }
    } else if w.credits == 0 && kind != TransactionKind::Spend {
        Err(Error::CreditsRequired)
    } else if w.balance() <= 0 || quota(kind, w) < amount {
        Err(Error::InsufficientBalance)
    } else {
        match kind {
            TransactionKind::Withdraw => Ok(w.credited(Bucket::Income, -amount)),
            TransactionKind::Refund => Ok(w.credited(Bucket::Topup, -amount)),
            TransactionKind::Spend | TransactionKind::Sponsor | TransactionKind::Subscribe => Ok(
                w.drained(amount),
            ),
            _ => Err(Error::InvalidArgument),
        }
    }
}

/// Adds `amount` to one bucket, or leaves the wallet as it is where the
/// bucket would leave the range of a stored number.
pub fn credit_bucket(wallet: &mut Wallet, bucket: Bucket, amount: i64) -> (r: Result<(), Error>)
    ensures
        match spec_credit(old(wallet)@, bucket, amount as int) {
            Ok(v) => r is Ok && final(wallet)@ == v,
            Err(e) => r == Err::<(), Error>(e) && final(wallet)@ == old(wallet)@,
        },
{
    let cur: i64 = match bucket {
        Bucket::Award => wallet.award,
        Bucket::Topup => wallet.topup,
        Bucket::Income => wallet.income,
    };
    let sum: i128 = cur as i128 + amount as i128;
    if sum < i64::MIN as i128 || sum > i64::MAX as i128 {
        return Err(Error::Overflow);
    }
    match bucket {
        Bucket::Award => {
            wallet.award = sum as i64;
        },
        Bucket::Topup => {
            wallet.topup = sum as i64;
        },
        Bucket::Income => {
            wallet.income = sum as i64;
        },
    }
    Ok(())
}

fn drain(wallet: &mut Wallet, amount: i64)
    requires
        amount > 0,
        old(wallet)@.balance() > 0,
        old(wallet)@.balance() + MAX_OVERDRAW >= amount,
    ensures
        final(wallet)@ == old(wallet)@.drained(amount as int),
{
    let a: i128 = wallet.award as i128 - amount as i128;
    if a >= 0 {
        wallet.award = a as i64;
    } else {
        let t: i128 = wallet.topup as i128 + a;
        wallet.award = 0;
        if t >= 0 {
            wallet.topup = t as i64;
        } else {
            let i: i128 = wallet.income as i128 + t;
            if i >= 0 {
                wallet.topup = 0;
                wallet.income = i as i64;
            } else {
                wallet.topup = i as i64;
                wallet.income = 0;
            }
        }
    }
}

impl TransactionKind {
    /// Takes `amount` from the payer's wallet for a transaction of this
    /// kind. The system pays awards and top-ups from buckets that may go
    /// below zero. A user needs credits for anything but a spend, a
    /// positive balance, and a quota that covers the amount; only a spend
    /// may overdraw, and by no more than the limit. On failure the wallet
    /// is left as it was.
    pub fn sub_payer_balance(&self, wallet: &mut Wallet, amount: i64) -> (r: Result<(), Error>)
        requires
            amount > 0,
        ensures
            match spec_sub_payer_balance(*self, old(wallet)@, amount as int) {
                Ok(v) => r is Ok && final(wallet)@ == v,
                Err(e) => r == Err::<(), Error>(e) && final(wallet)@ == old(wallet)@,
            },
            r is Ok ==> final(wallet)@.balance() == old(wallet)@.balance() - amount,
            r is Ok && !old(wallet)@.is_system() && old(wallet)@.user_invariant()
                ==> final(wallet)@.user_invariant(),
    {
        if wallet.is_system() {
            return match self {
                TransactionKind::Award => {
                    if amount == i64::MIN {
                        Err(Error::Overflow)
                    } else {
                        credit_bucket(wallet, Bucket::Award, -amount)
                    }
                },
                TransactionKind::Topup => {
                    if amount == i64::MIN {
                        Err(Error::Overflow)
                    } else {
                        credit_bucket(wallet, Bucket::Topup, -amount)
                    }
                },
                _ => Err(Error::InvalidArgument),
            };
        }
        let is_spend: bool = match self {
            TransactionKind::Spend => true,
            _ => false,
        };
        if wallet.credits == 0 && !is_spend {
            return Err(Error::CreditsRequired);
        }
        let b: i128 = wallet.wide_balance();
        let q: i128 = match self {
            TransactionKind::Withdraw => wallet.income as i128,
            TransactionKind::Refund => wallet.topup as i128,
            TransactionKind::Spend => b + MAX_OVERDRAW as i128,
            _ => b,
        };
        if b <= 0 || q < amount as i128 {
            return Err(Error::InsufficientBalance);
        }
        match self {
            TransactionKind::Withdraw => {
                wallet.income = wallet.income - amount;
                Ok(())
            },
            TransactionKind::Refund => {
                wallet.topup = wallet.topup - amount;
                Ok(())
            },
            TransactionKind::Spend | TransactionKind::Sponsor | TransactionKind::Subscribe => {
                drain(wallet, amount);
                Ok(())
            },
            _ => Err(Error::InvalidArgument),
        }
    }

    /// Gives `amount` back to the payer of a cancelled transaction of this
    /// kind. A spend, a sponsorship or a subscription comes back as top-up.
    pub fn rollback_payer_balance(&self, wallet: &mut Wallet, amount: i64) -> (r: Result<
        (),
        Error,
    >)
        ensures
            match spec_credit(old(wallet)@, rollback_bucket(*self), amount as int) {
                Ok(v) => r is Ok && final(wallet)@ == v,
                Err(e) => r == Err::<(), Error>(e) && final(wallet)@ == old(wallet)@,
            },
    {
        let bucket: Bucket = match self {
            TransactionKind::Award => Bucket::Award,
            TransactionKind::Withdraw => Bucket::Income,
            _ => Bucket::Topup,
        };
        credit_bucket(wallet, bucket, amount)
    }

    /// Credits `amount` to the payee of a transaction of this kind: an
    /// award to the award bucket, a top-up, refund or withdrawal to the
    /// top-up, anything else to the income.
    pub fn add_payee_balance(&self, wallet: &mut Wallet, amount: i64) -> (r: Result<(), Error>)
        ensures
            match spec_credit(old(wallet)@, payee_bucket(*self), amount as int) {
                Ok(v) => r is Ok && final(wallet)@ == v,
                Err(e) => r == Err::<(), Error>(e) && final(wallet)@ == old(wallet)@,
            },
    {
        let bucket: Bucket = match self {
            TransactionKind::Award => Bucket::Award,
            TransactionKind::Topup | TransactionKind::Refund | TransactionKind::Withdraw => Bucket::Topup,
            TransactionKind::Spend | TransactionKind::Sponsor | TransactionKind::Subscribe => Bucket::Income,
        };
        credit_bucket(wallet, bucket, amount)
    }
}

/// Cancelling gives back what preparing took: after a deduction and its
/// rollback the balance is what it was, whatever the kind, though a spend,
/// a sponsorship or a subscription leaves it in the top-up.
pub proof fn law_rollback_restores_balance(kind: TransactionKind, w: WalletView, amount: int)
    requires
        amount > 0,
        spec_sub_payer_balance(kind, w, amount) is Ok,
    ensures
        ({
            let taken = spec_sub_payer_balance(kind, w, amount)->Ok_0;
            let back = taken.credited(rollback_bucket(kind), amount);
            &&& taken.balance() == w.balance() - amount
            &&& back.balance() == w.balance()
            &&& kind == TransactionKind::Spend || kind == TransactionKind::Sponsor || kind
                == TransactionKind::Subscribe ==> back.topup == taken.topup + amount && back.award
                == taken.award && back.income == taken.income
        }),
{
}

/// On a user's wallet that keeps to its invariant and has a positive
/// balance, a spend of the whole balance and the whole overdraw goes
/// through and leaves the top-up at minus the limit, with nothing in the
/// other buckets; a spend of one unit more is refused.
pub proof fn law_spend_overdraw_boundary(w: WalletView)
    requires
        !w.is_system(),
        w.user_invariant(),
        w.balance() > 0,
    ensures
        ({
            let r = spec_sub_payer_balance(TransactionKind::Spend, w, w.balance() + MAX_OVERDRAW);
            &&& r is Ok
            &&& r->Ok_0.topup == -(MAX_OVERDRAW as int)
            &&& r->Ok_0.award == 0
            &&& r->Ok_0.income == 0
        }),
        spec_sub_payer_balance(TransactionKind::Spend, w, w.balance() + MAX_OVERDRAW + 1) == Err::<
            WalletView,
            Error,
        >(Error::InsufficientBalance),
{
}

} // verus!
