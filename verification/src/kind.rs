//! The kinds of transaction, who may pay and be paid in each, and the fees.

use vstd::prelude::*;

use crate::error::Error;
use crate::id::{sys_id, Id};

verus! {

/// What a transaction is for. The kind fixes who may be payer and payee,
/// which bucket is drawn from and credited, and the fee.
#[derive(Clone, Copy, Debug, PartialEq, Eq, Structural)]
pub enum TransactionKind {
    /// The system grants balance to a user.
    Award,
    /// The system credits a user's paid top-up.
    Topup,
    /// A user gives a top-up back to the system.
    Refund,
    /// A user cashes out income.
    Withdraw,
    /// A user consumes balance; the only kind that may overdraw.
    Spend,
    /// A one-off payment from a user to another.
    Sponsor,
    /// A recurring payment from a user to another.
    Subscribe,
}

/// The fee that the system keeps of a withdrawal, in thousandths.
pub const SYS_FEE_PER_MILLE: i64 = 1;

/// The share of a payment between users that the system keeps, in
/// hundredths, by the payer's credits: the more credits, the lower the fee.
pub open spec fn income_fee_percent(credits: int) -> int {
    if credits <= 9_999 {
        30
    } else if credits <= 99_999 {
        27
    } else if credits <= 999_999 {
        24
    } else if credits <= 9_999_999 {
        21
    } else if credits <= 99_999_999 {
        18
    } else if credits <= 999_999_999 {
        15
    } else if credits <= 9_999_999_999 {
        12
    } else {
        9
    }
}

/// The fee rate for a payer with the given credits, in hundredths.
pub fn income_fee_rate(credits: i64) -> (r: i64)
    ensures
        r == income_fee_percent(credits as int),
        9 <= r <= 30,
{
    if credits <= 9_999 {
        30
    } else if credits <= 99_999 {
        27
    } else if credits <= 999_999 {
        24
    } else if credits <= 9_999_999 {
        21
    } else if credits <= 99_999_999 {
        18
    } else if credits <= 999_999_999 {
        15
    } else if credits <= 9_999_999_999 {
        12
    } else {
        9
    }
}

/// The fee on `amount` at the rate `num / den`, rounded down, and never
/// less than one unit.
pub open spec fn fee_floor(amount: int, num: int, den: int) -> int {
    let f = (amount * num) / den;
    if f < 1 {
        1
    } else {
        f
    }
}

/// Half of `x`, rounded toward zero.
pub open spec fn half_toward_zero(x: int) -> int {
    if x >= 0 {
        x / 2
    } else {
        -((-x) / 2)
    }
}

/// The fee of the system and the share of a second payee for a transaction
/// of this kind: `(sys_fee, sub_shares)`.
pub open spec fn spec_fee_and_shares(
    kind: TransactionKind,
    amount: int,
    credits: int,
    has_sub_payee: bool,
) -> (int, int) {
    match kind {
        TransactionKind::Withdraw => (fee_floor(amount, SYS_FEE_PER_MILLE as int, 1000), 0),
        TransactionKind::Sponsor | TransactionKind::Subscribe => {
            let fee = fee_floor(amount, income_fee_percent(credits), 100);
            (
                fee,
                if has_sub_payee {
                    half_toward_zero(amount - fee)
                } else {
                    0
                },
            )
        },
        _ => (0, 0),
    }
}

fn compute_fee(amount: i64, num: i64, den: i64) -> (r: i64)
    requires
        1 <= num <= 30,
        num < den <= 1000,
    ensures
        r == fee_floor(amount as int, num as int, den as int),
        1 <= r,
        amount >= 1 ==> r <= amount,
{
    if amount <= 0 {
        assert((amount * num) / (den as int) <= 0) by (nonlinear_arith)
            requires
                amount <= 0,
                num >= 1,
                den >= 1,
        ;
        return 1;
    }
    let a: i128 = amount as i128;
    let n: i128 = num as i128;
    let d: i128 = den as i128;
    assert(0 <= a * n <= a * d && a * d <= 0x7fff_ffff_ffff_ffff * 1000) by (nonlinear_arith)
        requires
            0 < a <= 0x7fff_ffff_ffff_ffff,
            1 <= n < d <= 1000,
    ;
    let p: i128 = a * n;
    let f: i128 = p / d;
    assert(0 <= p / d <= a) by (nonlinear_arith)
        requires
            0 <= p <= a * d,
            d >= 1,
    ;
    if f < 1 {
        1
    } else {
        f as i64
    }
}

impl TransactionKind {
    /// The lower-case name under which the kind is stored.
    pub open spec fn name(self) -> Seq<char> {
        match self {
            TransactionKind::Award => "award"@,
            TransactionKind::Topup => "topup"@,
            TransactionKind::Refund => "refund"@,
            TransactionKind::Withdraw => "withdraw"@,
            TransactionKind::Spend => "spend"@,
            TransactionKind::Sponsor => "sponsor"@,
            TransactionKind::Subscribe => "subscribe"@,
        }
    }

    /// The kind stored under a name: one of the seven names, or the name
    /// `expenditure` that older rows carry for a spend.
    pub open spec fn parse(s: Seq<char>) -> Option<TransactionKind> {
        if s == "award"@ {
            Some(TransactionKind::Award)
        } else if s == "topup"@ {
            Some(TransactionKind::Topup)
        } else if s == "refund"@ {
            Some(TransactionKind::Refund)
        } else if s == "withdraw"@ {
            Some(TransactionKind::Withdraw)
        } else if s == "spend"@ || s == "expenditure"@ {
            Some(TransactionKind::Spend)
        } else if s == "sponsor"@ {
            Some(TransactionKind::Sponsor)
        } else if s == "subscribe"@ {
            Some(TransactionKind::Subscribe)
        } else {
            None
        }
    }

    /// Every kind is found again under its own name.
    pub proof fn law_parse_name(self)
        ensures
            Self::parse(self.name()) == Some(self),
    {
        reveal_strlit("award");
        reveal_strlit("topup");
        reveal_strlit("refund");
        reveal_strlit("withdraw");
        reveal_strlit("spend");
        reveal_strlit("sponsor");
        reveal_strlit("subscribe");
        reveal_strlit("expenditure");
        assert("award"@.len() == 5 && "topup"@.len() == 5 && "spend"@.len() == 5);
        assert("refund"@.len() == 6 && "withdraw"@.len() == 8 && "sponsor"@.len() == 7);
        assert("subscribe"@.len() == 9 && "expenditure"@.len() == 11);
        assert("award"@[0] != "topup"@[0]);
        assert("award"@[0] != "spend"@[0]);
        assert("topup"@[0] != "spend"@[0]);
    }

    pub fn as_ref(&self) -> (r: &'static str)
        ensures
            r@ == self.name(),
    {
        match self {
            TransactionKind::Award => "award",
            TransactionKind::Topup => "topup",
            TransactionKind::Refund => "refund",
            TransactionKind::Withdraw => "withdraw",
            TransactionKind::Spend => "spend",
            TransactionKind::Sponsor => "sponsor",
            TransactionKind::Subscribe => "subscribe",
        }
    }

    pub fn to_string(&self) -> (r: String)
        ensures
            r@ == self.name(),
    {
        self.as_ref().to_owned()
    }

    /// Reads a kind from its stored name, the older name of a spend
    /// included. Any other text is refused.
    pub fn from_str(s: &str) -> (r: Result<TransactionKind, Error>)
        ensures
            r == match Self::parse(s@) {
                Some(k) => Ok::<TransactionKind, Error>(k),
                None => Err::<TransactionKind, Error>(Error::InvalidArgument),
            },
    {
        let t: String = s.to_owned();
        if t == "award".to_owned() {
            Ok(TransactionKind::Award)
        } else if t == "topup".to_owned() {
            Ok(TransactionKind::Topup)
        } else if t == "refund".to_owned() {
            Ok(TransactionKind::Refund)
        } else if t == "withdraw".to_owned() {
            Ok(TransactionKind::Withdraw)
        } else if t == "spend".to_owned() || t == "expenditure".to_owned() {
            Ok(TransactionKind::Spend)
        } else if t == "sponsor".to_owned() {
            Ok(TransactionKind::Sponsor)
        } else if t == "subscribe".to_owned() {
            Ok(TransactionKind::Subscribe)
        } else {
            Err(Error::InvalidArgument)
        }
    }

    /// Whether the system is the payer of this kind.
    pub open spec fn system_pays(self) -> bool {
        self == TransactionKind::Award || self == TransactionKind::Topup
    }

    /// Whether the system is the payee of this kind.
    pub open spec fn system_is_paid(self) -> bool {
        self == TransactionKind::Spend || self == TransactionKind::Withdraw || self
            == TransactionKind::Refund
    }

    /// Whether this kind admits a second payee.
    pub open spec fn allows_sub_payee(self) -> bool {
        self == TransactionKind::Sponsor || self == TransactionKind::Subscribe
    }

    /// Award and top-up are paid by the system wallet and by no other; every
    /// other kind is paid by a user.
    pub fn check_payer(&self, uid: Id) -> (r: Result<(), Error>)
        ensures
            r is Ok <==> (self.system_pays() <==> uid == sys_id()),
            r is Err ==> r == Err::<(), Error>(Error::InvalidArgument),
    {
        let sys: bool = uid.is_zero();
        let ok: bool = match self {
            TransactionKind::Award | TransactionKind::Topup => sys,
            _ => !sys,
        };
        if ok {
            Ok(())
        } else {
            Err(Error::InvalidArgument)
        }
    }

    /// Spend, withdraw and refund are paid to the system wallet and to no
    /// other; every other kind is paid to a user.
    pub fn check_payee(&self, uid: Id) -> (r: Result<(), Error>)
        ensures
            r is Ok <==> (self.system_is_paid() <==> uid == sys_id()),
            r is Err ==> r == Err::<(), Error>(Error::InvalidArgument),
    {
        let sys: bool = uid.is_zero();
        let ok: bool = match self {
            TransactionKind::Spend | TransactionKind::Withdraw | TransactionKind::Refund => sys,
            _ => !sys,
        };
        if ok {
            Ok(())
        } else {
            Err(Error::InvalidArgument)
        }
    }

    /// Only sponsor and subscribe admit a second payee, whoever it is.
    pub fn check_sub_payee(&self, uid: Id) -> (r: Result<(), Error>)
        ensures
            r is Ok <==> self.allows_sub_payee(),
            r is Err ==> r == Err::<(), Error>(Error::InvalidArgument),
    {
        match self {
            TransactionKind::Sponsor | TransactionKind::Subscribe => Ok(()),
            _ => Err(Error::InvalidArgument),
        }
    }

    /// The system's fee and the second payee's share, `(sys_fee,
    /// sub_shares)`, for `amount` paid by a payer with `credits`.
    pub fn fee_and_shares(&self, amount: i64, credits: i64, has_sub_payee: bool) -> (r: (i64, i64))
        ensures
            (r.0 as int, r.1 as int) == spec_fee_and_shares(
                *self,
                amount as int,
                credits as int,
                has_sub_payee,
            ),
            amount >= 1 ==> 0 <= r.0 && 0 <= r.1 && r.0 + r.1 <= amount,
    {
        match self {
            TransactionKind::Withdraw => (compute_fee(amount, SYS_FEE_PER_MILLE, 1000), 0),
            TransactionKind::Sponsor | TransactionKind::Subscribe => {
                let rate: i64 = income_fee_rate(credits);
                let fee: i64 = compute_fee(amount, rate, 100);
                let shares: i64 = if has_sub_payee {
                    let d: i128 = amount as i128 - fee as i128;
                    if d >= 0 {
                        (d / 2) as i64
                    } else {
                        let h: i128 = (-d) / 2;
                        (-h) as i64
                    }
                } else {
                    0
                };
                (fee, shares)
            },
            _ => (0, 0),
        }
    }
}

} // verus!
