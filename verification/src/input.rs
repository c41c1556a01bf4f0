//! What callers may ask for: the bounds on amounts, the providers, and the
//! shape of a new charge and of an update to one.

use vstd::prelude::*;

use crate::charge::{Charge, ChargeUpdate, ChargeUpdateView, ChargeView};
use crate::currency::{find_currency, lower_alpha_at, spec_find, spec_lower_alpha};
use crate::error::Error;
use crate::id::Id;
use crate::kind::TransactionKind;

verus! {

/// The greatest amount that one award, spend, sponsorship or subscription
/// may carry, and the greatest quantity of one charge.
pub const MAX_AMOUNT: i64 = 1_000_000;

/// The least quantity of one charge.
pub const MIN_QUANTITY: i64 = 50;

/// The greatest number of credits that one award may carry.
pub const MAX_AWARD_CREDITS: u64 = 1_000_000;

/// How an award is described where the caller gives no description.
pub const AWARD_DESCRIPTION: &'static str = "payee.award";

/// Whether an amount that a provider confirmed may be recorded: it is at
/// least one.
pub fn check_positive(amount: i64) -> (r: Result<(), Error>)
    ensures
        r is Ok <==> amount >= 1,
        r is Err ==> r == Err::<(), Error>(Error::InvalidArgument),
{
    if amount >= 1 {
        Ok(())
    } else {
        Err(Error::InvalidArgument)
    }
}

/// Whether an amount may be asked for: at least one and no more than the
/// greatest.
pub fn check_amount(amount: i64) -> (r: Result<(), Error>)
    ensures
        r is Ok <==> 1 <= amount <= MAX_AMOUNT,
        r is Err ==> r == Err::<(), Error>(Error::InvalidArgument),
{
    if 1 <= amount && amount <= MAX_AMOUNT {
        Ok(())
    } else {
        Err(Error::InvalidArgument)
    }
}

/// Whether an award of an amount with credits may be asked for.
pub fn check_award(amount: i64, credits: u64) -> (r: Result<(), Error>)
    ensures
        r is Ok <==> 1 <= amount <= MAX_AMOUNT && credits <= MAX_AWARD_CREDITS,
        r is Err ==> r == Err::<(), Error>(Error::InvalidArgument),
{
    if 1 <= amount && amount <= MAX_AMOUNT && credits <= MAX_AWARD_CREDITS {
        Ok(())
    } else {
        Err(Error::InvalidArgument)
    }
}

/// Whether a status may be used to filter a listing: from cancelling to
/// committing.
pub fn check_status_filter(status: Option<i8>) -> (r: Result<(), Error>)
    ensures
        r is Ok <==> (status matches Some(s) ==> -1 <= s <= 2),
        r is Err ==> r == Err::<(), Error>(Error::InvalidArgument),
{
    match status {
        Some(s) => {
            if -1 <= s && s <= 2 {
                Ok(())
            } else {
                Err(Error::InvalidArgument)
            }
        },
        None => Ok(()),
    }
}

/// Whether the payer of a transaction of this kind is shown to a reader:
/// the system as the giver of an award or a top-up, and the user who
/// sponsors or subscribes.
pub fn payer_shown(kind: TransactionKind) -> (r: bool)
    ensures
        r == (kind.system_pays() || kind.allows_sub_payee()),
{
    match kind {
        TransactionKind::Award | TransactionKind::Topup | TransactionKind::Sponsor | TransactionKind::Subscribe => true,
        _ => false,
    }
}

/// Whether a text names a provider of payments that is supported.
pub open spec fn provider_supported(provider: Seq<char>) -> bool {
    provider == "stripe"@
}

/// Refuses a provider that is not supported.
pub fn validate_provider(provider: &str) -> (r: Result<(), Error>)
    ensures
        r is Ok <==> provider_supported(provider@),
        r is Err ==> r == Err::<(), Error>(Error::InvalidArgument),
{
    if provider.to_owned() == "stripe".to_owned() {
        Ok(())
    } else {
        Err(Error::InvalidArgument)
    }
}

/// The charge that a request creates, or nothing where the request is
/// refused. The provider must be supported and the quantity within its
/// bounds; an amount must be positive and come with a known currency,
/// which is stored in small letters; a provider's identifier must come
/// with the provider's payload, and makes the charge await the provider.
pub open spec fn spec_new_charge(
    uid: Id,
    provider: Seq<char>,
    quantity: int,
    currency: Option<Seq<char>>,
    amount: Option<int>,
    charge_id: Option<Seq<char>>,
    charge_payload: Option<Seq<u8>>,
) -> Option<ChargeView> {
    let base = ChargeView { provider, quantity, ..ChargeView::empty(uid, crate::id::sys_id()) };
    if !provider_supported(provider) || quantity < MIN_QUANTITY || quantity > MAX_AMOUNT {
        None
    } else if amount is Some && (amount->0 < 1 || currency is None || spec_find(currency->0, 0)
        is None) {
        None
    } else if charge_id is Some && charge_payload is None {
        None
    } else {
        let priced = if amount is Some {
            ChargeView {
                amount: amount->0,
                currency: spec_lower_alpha(spec_find(currency->0, 0)->0),
                ..base
            }
        } else {
            base
        };
        Some(
            if charge_id is Some {
                ChargeView {
                    status: 1,
                    charge_id: charge_id->0,
                    charge_payload: charge_payload->0,
                    ..priced
                }
            } else {
                priced
            },
        )
    }
}

/// Whether the columns of an update are such as a caller may ask for on a
/// charge that has the status `current_status`: the charge is initialized
/// or awaits the provider; the update holds something; a new status is
/// initialized, awaiting or expired; amounts are positive; a failure code
/// comes only with the expiry; and the transactions are not the caller's
/// to set.
pub open spec fn update_admitted(current_status: int, u: ChargeUpdateView) -> bool {
    &&& 0 <= current_status <= 1
    &&& !u.is_empty()
    &&& (u.status matches Some(s) ==> s == -2 || s == 0 || s == 1)
    &&& (u.amount matches Some(a) ==> a >= 1)
    &&& (u.amount_refunded matches Some(a) ==> a >= 1)
    &&& (u.failure_code is Some ==> u.status == Some(-2int))
    &&& u.txn is None
    &&& u.txn_refunded is None
}

impl Charge {
    /// The charge that a request creates; see `spec_new_charge`.
    pub fn from_input(
        uid: Id,
        provider: String,
        quantity: i64,
        currency: Option<String>,
        amount: Option<i64>,
        charge_id: Option<String>,
        charge_payload: Option<Vec<u8>>,
    ) -> (r: Result<Charge, Error>)
        ensures
            match spec_new_charge(
                uid,
                provider@,
                quantity as int,
                match currency {
                    Some(c) => Some(c@),
                    None => None,
                },
                match amount {
                    Some(a) => Some(a as int),
                    None => None,
                },
                match charge_id {
                    Some(c) => Some(c@),
                    None => None,
                },
                match charge_payload {
                    Some(p) => Some(p@),
                    None => None,
                },
            ) {
                Some(c) => r is Ok && r->Ok_0@ == c,
                None => r is Err && r->Err_0 == Error::InvalidArgument,
            },
    {
        if validate_provider(provider.as_str()).is_err() || quantity < MIN_QUANTITY || quantity
            > MAX_AMOUNT {
            return Err(Error::InvalidArgument);
        }
        let mut doc: Charge = Charge::with_pk(uid, crate::id::sys_id());
        doc.provider = provider;
        doc.quantity = quantity;
        if let Some(a) = amount {
            if a < 1 {
                return Err(Error::InvalidArgument);
            }
            let text: String = match currency {
                Some(c) => c,
                None => {
                    return Err(Error::InvalidArgument);
                },
            };
            match find_currency(text.as_str()) {
                Some(i) => {
                    doc.amount = a;
                    doc.currency = lower_alpha_at(i).to_owned();
                },
                None => {
                    return Err(Error::InvalidArgument);
                },
            }
        }
        if let Some(id) = charge_id {
            match charge_payload {
                Some(p) => {
                    doc.status = 1;
                    doc.charge_id = id;
                    doc.charge_payload = p;
                },
                None => {
                    return Err(Error::InvalidArgument);
                },
            }
        }
        Ok(doc)
    }
}

impl ChargeUpdate {
    /// Whether nothing is to be written.
    pub fn is_empty(&self) -> (r: bool)
        ensures
            r == self@.is_empty(),
    {
        self.status.is_none() && self.currency.is_none() && self.amount.is_none()
            && self.amount_refunded.is_none() && self.charge_id.is_none()
            && self.charge_payload.is_none() && self.txn.is_none() && self.txn_refunded.is_none()
            && self.failure_code.is_none() && self.failure_msg.is_none()
    }

    /// Refuses an update that a caller may not ask for on a charge with
    /// the status `current_status`; see `update_admitted`.
    pub fn check_input(&self, current_status: i8) -> (r: Result<(), Error>)
        ensures
            r is Ok <==> update_admitted(current_status as int, self@),
            r is Err ==> r == Err::<(), Error>(Error::InvalidArgument),
    {
        let mut ok: bool = 0 <= current_status && current_status <= 1 && !self.is_empty()
            && self.txn.is_none() && self.txn_refunded.is_none();
        let mut expiring: bool = false;
        if let Some(s) = self.status {
            if !(s == -2 || s == 0 || s == 1) {
                ok = false;
            }
            expiring = s == -2;
        }
        if let Some(a) = self.amount {
            if a < 1 {
                ok = false;
            }
        }
        if let Some(a) = self.amount_refunded {
            if a < 1 {
                ok = false;
            }
        }
        if self.failure_code.is_some() && !expiring {
            ok = false;
        }
        if ok {
            Ok(())
        } else {
            Err(Error::InvalidArgument)
        }
    }
}

} // verus!
