//! The currencies that a charge may be paid in.

use vstd::prelude::*;

use crate::error::Error;

verus! {

/// A currency: its name, its three-letter code in capitals, how many
/// decimals its smallest unit has, and its numeric code.
#[derive(Clone, Copy, Debug)]
pub struct Currency {
    pub name: &'static str,
    pub alpha: &'static str,
    pub decimals: u8,
    pub code: u16,
}

/// How many currencies the table holds.
pub const CURRENCY_COUNT: usize = 12;

/// The table of currencies, by position.
pub open spec fn spec_currency(i: int) -> Currency {
    if i == 0 {
        Currency { name: "港幣", alpha: "HKD", decimals: 2, code: 344 }
    } else if i == 1 {
        Currency { name: "US Dollar", alpha: "USD", decimals: 2, code: 840 }
    } else if i == 2 {
        Currency { name: "人民币", alpha: "CNY", decimals: 2, code: 156 }
    } else if i == 3 {
        Currency { name: "Euro", alpha: "EUR", decimals: 2, code: 978 }
    } else if i == 4 {
        Currency { name: "日本円", alpha: "JPY", decimals: 0, code: 392 }
    } else if i == 5 {
        Currency { name: "Pound Sterling", alpha: "GBP", decimals: 2, code: 826 }
    } else if i == 6 {
        Currency { name: "Canadian Dollar", alpha: "CAD", decimals: 2, code: 124 }
    } else if i == 7 {
        Currency { name: "Singapore Dollar", alpha: "SGD", decimals: 2, code: 702 }
    } else if i == 8 {
        Currency { name: "Australian Dollar", alpha: "AUD", decimals: 2, code: 36 }
    } else if i == 9 {
        Currency { name: "درهم إماراتي", alpha: "AED", decimals: 2, code: 784 }
    } else if i == 10 {
        Currency { name: "원", alpha: "KRW", decimals: 0, code: 410 }
    } else {
        Currency { name: "рубль", alpha: "RUB", decimals: 2, code: 643 }
    }
}

/// The three-letter code of the currency at a position, in small letters,
/// as a charge stores it.
pub open spec fn spec_lower_alpha(i: int) -> Seq<char> {
    if i == 0 {
        "hkd"@
    } else if i == 1 {
        "usd"@
    } else if i == 2 {
        "cny"@
    } else if i == 3 {
        "eur"@
    } else if i == 4 {
        "jpy"@
    } else if i == 5 {
        "gbp"@
    } else if i == 6 {
        "cad"@
    } else if i == 7 {
        "sgd"@
    } else if i == 8 {
        "aud"@
    } else if i == 9 {
        "aed"@
    } else if i == 10 {
        "krw"@
    } else {
        "rub"@
    }
}

/// The code of a character once a small Latin letter is made a capital.
pub open spec fn upper_code(c: char) -> int {
    let u = c as u32 as int;
    if 0x61 <= u <= 0x7a {
        u - 0x20
    } else {
        u
    }
}

/// Whether a text is a code once its small Latin letters are made
/// capitals.
pub open spec fn names_code(text: Seq<char>, alpha: Seq<char>) -> bool {
    text.len() == alpha.len() && forall|i: int|
        0 <= i < text.len() ==> upper_code(#[trigger] text[i]) == alpha[i] as u32 as int
}

/// The position of the first currency that a text names, if it names one.
pub open spec fn spec_find(text: Seq<char>, from: int) -> Option<int>
    decreases CURRENCY_COUNT - from,
{
    if from < 0 || from >= CURRENCY_COUNT {
        None
    } else if names_code(text, spec_currency(from).alpha@) {
        Some(from)
    } else {
        spec_find(text, from + 1)
    }
}

/// The currency at a position of the table.
pub fn currency_at(i: usize) -> (r: Currency)
    requires
        i < CURRENCY_COUNT,
    ensures
        r == spec_currency(i as int),
{
    if i == 0 {
        Currency { name: "港幣", alpha: "HKD", decimals: 2, code: 344 }
    } else if i == 1 {
        Currency { name: "US Dollar", alpha: "USD", decimals: 2, code: 840 }
    } else if i == 2 {
        Currency { name: "人民币", alpha: "CNY", decimals: 2, code: 156 }
    } else if i == 3 {
        Currency { name: "Euro", alpha: "EUR", decimals: 2, code: 978 }
    } else if i == 4 {
        Currency { name: "日本円", alpha: "JPY", decimals: 0, code: 392 }
    } else if i == 5 {
        Currency { name: "Pound Sterling", alpha: "GBP", decimals: 2, code: 826 }
    } else if i == 6 {
        Currency { name: "Canadian Dollar", alpha: "CAD", decimals: 2, code: 124 }
    } else if i == 7 {
        Currency { name: "Singapore Dollar", alpha: "SGD", decimals: 2, code: 702 }
    } else if i == 8 {
        Currency { name: "Australian Dollar", alpha: "AUD", decimals: 2, code: 36 }
    } else if i == 9 {
        Currency { name: "درهم إماراتي", alpha: "AED", decimals: 2, code: 784 }
    } else if i == 10 {
        Currency { name: "원", alpha: "KRW", decimals: 0, code: 410 }
    } else {
        Currency { name: "рубль", alpha: "RUB", decimals: 2, code: 643 }
    }
}

/// The whole table, in order.
pub fn currencies() -> (r: Vec<Currency>)
    ensures
        r@.len() == CURRENCY_COUNT,
        forall|i: int| 0 <= i < CURRENCY_COUNT ==> r@[i] == spec_currency(i),
{
    let mut out: Vec<Currency> = Vec::new();
    let mut i: usize = 0;
    while i < CURRENCY_COUNT
        invariant
            i <= CURRENCY_COUNT,
            out@.len() == i,
            forall|j: int| 0 <= j < i ==> out@[j] == spec_currency(j),
        decreases CURRENCY_COUNT - i,
    {
        out.push(currency_at(i));
        i += 1;
    }
    out
}

fn names_code_of(text: &str, alpha: &str) -> (r: bool)
    ensures
        r == names_code(text@, alpha@),
{
    let n: usize = text.unicode_len();
    if n != alpha.unicode_len() {
        return false;
    }
    let mut i: usize = 0;
    while i < n
        invariant
            i <= n,
            n == text@.len(),
            n == alpha@.len(),
            forall|j: int| 0 <= j < i ==> upper_code(#[trigger] text@[j]) == alpha@[j] as u32 as int,
        decreases n - i,
    {
        let c: u32 = text.get_char(i) as u32;
        let up: u32 = if 0x61 <= c && c <= 0x7a {
            c - 0x20
        } else {
            c
        };
        if up != alpha.get_char(i) as u32 {
            assert(upper_code(text@[i as int]) != alpha@[i as int] as u32 as int);
            return false;
        }
        i += 1;
    }
    true
}

/// The three-letter code of the currency at a position, in small letters.
pub fn lower_alpha_at(i: usize) -> (r: &'static str)
    requires
        i < CURRENCY_COUNT,
    ensures
        r@ == spec_lower_alpha(i as int),
{
    if i == 0 {
        "hkd"
    } else if i == 1 {
        "usd"
    } else if i == 2 {
        "cny"
    } else if i == 3 {
        "eur"
    } else if i == 4 {
        "jpy"
    } else if i == 5 {
        "gbp"
    } else if i == 6 {
        "cad"
    } else if i == 7 {
        "sgd"
    } else if i == 8 {
        "aud"
    } else if i == 9 {
        "aed"
    } else if i == 10 {
        "krw"
    } else {
        "rub"
    }
}

/// The position of the currency that a text names by its three-letter
/// code, in capitals or not.
pub fn find_currency(s: &str) -> (r: Option<usize>)
    ensures
        match spec_find(s@, 0) {
            Some(i) => r == Some(i as usize) && 0 <= i < CURRENCY_COUNT,
            None => r is None,
        },
{
    let mut i: usize = 0;
    while i < CURRENCY_COUNT
        invariant
            i <= CURRENCY_COUNT,
            spec_find(s@, 0) == spec_find(s@, i as int),
        decreases CURRENCY_COUNT - i,
    {
        let c: Currency = currency_at(i);
        if names_code_of(s, c.alpha) {
            return Some(i);
        }
        i += 1;
    }
    None
}

impl Currency {
    /// The currency that a text names by its three-letter code, in
    /// capitals or not; a text that names none is refused.
    pub fn from_str(s: &str) -> (r: Result<Currency, Error>)
        ensures
            match spec_find(s@, 0) {
                Some(i) => r is Ok && r->Ok_0 == spec_currency(i),
                None => r is Err && r->Err_0 == Error::InvalidArgument,
            },
    {
        match find_currency(s) {
            Some(i) => Ok(currency_at(i)),
            None => Err(Error::InvalidArgument),
        }
    }
}

} // verus!
