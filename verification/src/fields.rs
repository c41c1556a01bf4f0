//! The columns of each table, and which of them a reader asks for.

use vstd::prelude::*;

use crate::charge::Charge;
use crate::credit::Credit;
use crate::customer::Customer;
use crate::error::Error;
use crate::text::texts;
use crate::transaction::Transaction;
use crate::wallet::Wallet;

verus! {

pub const WALLET_COLUMNS: [&'static str; 8] = [
    "uid",
    "sequence",
    "award",
    "topup",
    "income",
    "credits",
    "txn",
    "checksum",
];

pub const TRANSACTION_COLUMNS: [&'static str; 12] = [
    "uid",
    "id",
    "sequence",
    "payee",
    "sub_payee",
    "status",
    "kind",
    "amount",
    "sys_fee",
    "sub_shares",
    "description",
    "payload",
];

pub const CREDIT_COLUMNS: [&'static str; 5] = ["uid", "txn", "kind", "amount", "description"];

pub const CHARGE_COLUMNS: [&'static str; 16] = [
    "uid",
    "id",
    "status",
    "updated_at",
    "expire_at",
    "quantity",
    "currency",
    "amount",
    "amount_refunded",
    "provider",
    "charge_id",
    "charge_payload",
    "txn",
    "txn_refunded",
    "failure_code",
    "failure_msg",
];

/// The columns of a charge that an update may write.
pub const CHARGE_UPDATE_COLUMNS: [&'static str; 10] = [
    "status",
    "currency",
    "amount",
    "amount_refunded",
    "charge_id",
    "charge_payload",
    "txn",
    "txn_refunded",
    "failure_code",
    "failure_msg",
];

pub const CUSTOMER_COLUMNS: [&'static str; 7] = [
    "uid",
    "provider",
    "created_at",
    "updated_at",
    "customer",
    "payload",
    "customers",
];

pub const CUSTOMER_REQUIRED: [&'static str; 1] = ["customer"];

pub const CUSTOMER_KEY: [&'static str; 2] = ["uid", "provider"];

pub const TRANSACTION_REQUIRED: [&'static str; 2] = ["status", "kind"];

pub const TRANSACTION_KEY: [&'static str; 2] = ["uid", "id"];

pub const CREDIT_REQUIRED: [&'static str; 1] = ["kind"];

pub const CREDIT_KEY: [&'static str; 2] = ["uid", "txn"];

pub const CHARGE_REQUIRED: [&'static str; 4] = ["status", "quantity", "provider", "expire_at"];

pub const CHARGE_KEY: [&'static str; 2] = ["uid", "id"];

/// What each name of a list holds.
pub open spec fn names(v: Seq<&'static str>) -> Seq<Seq<char>> {
    Seq::new(v.len(), |i: int| v[i]@)
}

/// The list with the name at its end, unless the list holds it already.
pub open spec fn with_name(list: Seq<Seq<char>>, name: Seq<char>) -> Seq<Seq<char>> {
    if list.contains(name) {
        list
    } else {
        list.push(name)
    }
}

/// The list with each of the first `n` names of `extra` added in turn
/// where it is missing.
pub open spec fn with_names(list: Seq<Seq<char>>, extra: Seq<Seq<char>>, n: int) -> Seq<Seq<char>>
    decreases n,
{
    if n <= 0 {
        list
    } else {
        with_name(with_names(list, extra, n - 1), extra[n - 1])
    }
}

/// Whether every name of `selected` is one of `columns`.
pub open spec fn all_known(columns: Seq<Seq<char>>, selected: Seq<Seq<char>>) -> bool {
    forall|i: int| 0 <= i < selected.len() ==> columns.contains(#[trigger] selected[i])
}

/// The columns to read for a selection: all of them for an empty
/// selection; else the selected ones, then the required ones that are
/// missing, then, where the key is asked for, the key columns that are
/// missing. A selection that names an unknown column is refused.
pub open spec fn spec_select(
    columns: Seq<Seq<char>>,
    selected: Seq<Seq<char>>,
    required: Seq<Seq<char>>,
    key: Seq<Seq<char>>,
    with_pk: bool,
) -> Result<Seq<Seq<char>>, Error> {
    if selected.len() == 0 {
        Ok(columns)
    } else if !all_known(columns, selected) {
        Err(Error::InvalidArgument)
    } else {
        let base = with_names(selected, required, required.len() as int);
        Ok(
            if with_pk {
                with_names(base, key, key.len() as int)
            } else {
                base
            },
        )
    }
}

/// The names of a list as owned texts.
pub fn owned(list: &[&'static str]) -> (r: Vec<String>)
    ensures
        texts(r@) == names(list@),
{
    let mut out: Vec<String> = Vec::new();
    let mut i: usize = 0;
    while i < list.len()
        invariant
            i <= list@.len(),
            out@.len() == i,
            texts(out@) == names(list@).subrange(0, i as int),
        decreases list@.len() - i,
    {
        out.push(list[i].to_owned());
        assert(texts(out@) =~= names(list@).subrange(0, i + 1));
        i += 1;
    }
    assert(names(list@).subrange(0, list@.len() as int) =~= names(list@));
    out
}

/// Whether a list of names holds a name.
pub fn is_among(list: &[&'static str], name: &String) -> (r: bool)
    ensures
        r == names(list@).contains(name@),
{
    let mut i: usize = 0;
    while i < list.len()
        invariant
            i <= list@.len(),
            forall|j: int| 0 <= j < i ==> names(list@)[j] != name@,
        decreases list@.len() - i,
    {
        if list[i].to_owned() == *name {
            assert(names(list@)[i as int] == name@);
            return true;
        }
        i += 1;
    }
    false
}

fn holds(list: &Vec<String>, name: &String) -> (r: bool)
    ensures
        r == texts(list@).contains(name@),
{
    let mut i: usize = 0;
    while i < list.len()
        invariant
            i <= list@.len(),
            forall|j: int| 0 <= j < i ==> texts(list@)[j] != name@,
        decreases list@.len() - i,
    {
        if list[i] == *name {
            assert(texts(list@)[i as int] == name@);
            return true;
        }
        i += 1;
    }
    false
}

fn add_missing(list: &mut Vec<String>, extra: &[&'static str])
    ensures
        texts(final(list)@) == with_names(texts(old(list)@), names(extra@), extra@.len() as int),
{
    let mut i: usize = 0;
    while i < extra.len()
        invariant
            i <= extra@.len(),
            texts(list@) == with_names(texts(old(list)@), names(extra@), i as int),
        decreases extra@.len() - i,
    {
        let name: String = extra[i].to_owned();
        if !holds(list, &name) {
            let ghost before = texts(list@);
            list.push(name);
            assert(texts(list@) =~= before.push(names(extra@)[i as int]));
        }
        i += 1;
    }
}

/// The columns to read for a selection from a table with the given
/// columns, required columns and key columns.
pub fn select(
    columns: &[&'static str],
    selected: Vec<String>,
    required: &[&'static str],
    key: &[&'static str],
    with_pk: bool,
) -> (r: Result<Vec<String>, Error>)
    ensures
        match spec_select(
            names(columns@),
            texts(selected@),
            names(required@),
            names(key@),
            with_pk,
        ) {
            Ok(list) => r is Ok && texts(r->Ok_0@) == list,
            Err(e) => r == Err::<Vec<String>, Error>(e),
        },
{
    if selected.len() == 0 {
        return Ok(owned(columns));
    }
    let mut i: usize = 0;
    while i < selected.len()
        invariant
            i <= selected@.len(),
            forall|j: int|
                0 <= j < i ==> names(columns@).contains(#[trigger] texts(selected@)[j]),
        decreases selected@.len() - i,
    {
        if !is_among(columns, &selected[i]) {
            assert(!names(columns@).contains(texts(selected@)[i as int]));
            return Err(Error::InvalidArgument);
        }
        i += 1;
    }
    let mut out: Vec<String> = selected;
    add_missing(&mut out, required);
    if with_pk {
        add_missing(&mut out, key);
    }
    Ok(out)
}

impl Wallet {
    /// The names of all columns of a wallet.
    pub fn fields() -> (r: Vec<String>)
        ensures
            texts(r@) == names(WALLET_COLUMNS@),
    {
        owned(&WALLET_COLUMNS)
    }
}

impl Transaction {
    /// The names of all columns of a transaction.
    pub fn fields() -> (r: Vec<String>)
        ensures
            texts(r@) == names(TRANSACTION_COLUMNS@),
    {
        owned(&TRANSACTION_COLUMNS)
    }

    /// The columns to read for a selection of a transaction's columns.
    /// Status and kind are always read.
    pub fn select_fields(select_fields: Vec<String>, with_pk: bool) -> (r: Result<
        Vec<String>,
        Error,
    >)
        ensures
            match spec_select(
                names(TRANSACTION_COLUMNS@),
                texts(select_fields@),
                names(TRANSACTION_REQUIRED@),
                names(TRANSACTION_KEY@),
                with_pk,
            ) {
                Ok(list) => r is Ok && texts(r->Ok_0@) == list,
                Err(e) => r == Err::<Vec<String>, Error>(e),
            },
    {
        select(&TRANSACTION_COLUMNS, select_fields, &TRANSACTION_REQUIRED, &TRANSACTION_KEY, with_pk)
    }
}

impl Credit {
    /// The names of all columns of a credit entry.
    pub fn fields() -> (r: Vec<String>)
        ensures
            texts(r@) == names(CREDIT_COLUMNS@),
    {
        owned(&CREDIT_COLUMNS)
    }

    /// The columns to read for a selection of a credit entry's columns.
    /// The kind is always read.
    pub fn select_fields(select_fields: Vec<String>, with_pk: bool) -> (r: Result<
        Vec<String>,
        Error,
    >)
        ensures
            match spec_select(
                names(CREDIT_COLUMNS@),
                texts(select_fields@),
                names(CREDIT_REQUIRED@),
                names(CREDIT_KEY@),
                with_pk,
            ) {
                Ok(list) => r is Ok && texts(r->Ok_0@) == list,
                Err(e) => r == Err::<Vec<String>, Error>(e),
            },
    {
        select(&CREDIT_COLUMNS, select_fields, &CREDIT_REQUIRED, &CREDIT_KEY, with_pk)
    }
}

impl Customer {
    /// The names of all columns of a customer row.
    pub fn fields() -> (r: Vec<String>)
        ensures
            texts(r@) == names(CUSTOMER_COLUMNS@),
    {
        owned(&CUSTOMER_COLUMNS)
    }

    /// The columns to read for a selection of a customer row's columns.
    /// The identifier at the provider is always read.
    pub fn select_fields(select_fields: Vec<String>, with_pk: bool) -> (r: Result<
        Vec<String>,
        Error,
    >)
        ensures
            match spec_select(
                names(CUSTOMER_COLUMNS@),
                texts(select_fields@),
                names(CUSTOMER_REQUIRED@),
                names(CUSTOMER_KEY@),
                with_pk,
            ) {
                Ok(list) => r is Ok && texts(r->Ok_0@) == list,
                Err(e) => r == Err::<Vec<String>, Error>(e),
            },
    {
        select(&CUSTOMER_COLUMNS, select_fields, &CUSTOMER_REQUIRED, &CUSTOMER_KEY, with_pk)
    }
}

impl Charge {
    /// The names of all columns of a charge.
    pub fn fields() -> (r: Vec<String>)
        ensures
            texts(r@) == names(CHARGE_COLUMNS@),
    {
        owned(&CHARGE_COLUMNS)
    }

    /// The columns to read for a selection of a charge's columns. Status,
    /// quantity, provider and expiry are always read.
    pub fn select_fields(select_fields: Vec<String>, with_pk: bool) -> (r: Result<
        Vec<String>,
        Error,
    >)
        ensures
            match spec_select(
                names(CHARGE_COLUMNS@),
                texts(select_fields@),
                names(CHARGE_REQUIRED@),
                names(CHARGE_KEY@),
                with_pk,
            ) {
                Ok(list) => r is Ok && texts(r->Ok_0@) == list,
                Err(e) => r == Err::<Vec<String>, Error>(e),
            },
    {
        select(&CHARGE_COLUMNS, select_fields, &CHARGE_REQUIRED, &CHARGE_KEY, with_pk)
    }

    /// Whether every one of the named columns may be written by an
    /// update; a name of any other column is refused.
    pub fn check_update_fields(fields: &Vec<String>) -> (r: Result<(), Error>)
        ensures
            r is Ok <==> all_known(names(CHARGE_UPDATE_COLUMNS@), texts(fields@)),
            r is Err ==> r == Err::<(), Error>(Error::InvalidArgument),
    {
        let mut i: usize = 0;
        while i < fields.len()
            invariant
                i <= fields@.len(),
                forall|j: int|
                    0 <= j < i ==> names(CHARGE_UPDATE_COLUMNS@).contains(
                        #[trigger] texts(fields@)[j],
                    ),
            decreases fields@.len() - i,
        {
            if !is_among(&CHARGE_UPDATE_COLUMNS, &fields[i]) {
                assert(!names(CHARGE_UPDATE_COLUMNS@).contains(texts(fields@)[i as int]));
                return Err(Error::InvalidArgument);
            }
            i += 1;
        }
        Ok(())
    }
}

} // verus!
