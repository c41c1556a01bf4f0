use walletbase::fields::{select, CHARGE_COLUMNS};
use walletbase::input::{
    check_amount, check_award, check_positive, check_status_filter, payer_shown,
};
use walletbase::paging::{next_page_token, page_size, scan_below};
use walletbase::text::trim;
use walletbase::{
    base64url_decode, base64url_encode, currencies, get_fields, max_id, min_id, unwrap_cbor_tag,
    validate_provider, wrap_cbor_tag, Charge, Credit, Currency, Error, Id, Transaction,
    TransactionKind, Wallet, CBOR_TAG,
};

fn strings(v: &[&str]) -> Vec<String> {
    v.iter().map(|s| s.to_string()).collect()
}

#[test]
fn cbor_tag_round_trip() {
    assert_eq!([0xd9u8, 0xd9, 0xf7], CBOR_TAG);
    assert_eq!(vec![0xd9u8, 0xd9, 0xf7, 1, 2], wrap_cbor_tag(&[1, 2]));
    assert_eq!(vec![0xd9u8, 0xd9, 0xf7], wrap_cbor_tag(&[]));
    assert_eq!(&[1u8, 2][..], unwrap_cbor_tag(&[0xd9, 0xd9, 0xf7, 1, 2]));
    assert_eq!(&[1u8, 2][..], unwrap_cbor_tag(&wrap_cbor_tag(&[1, 2])));
    // The tag alone is not taken for tagged data.
    assert_eq!(&[0xd9u8, 0xd9, 0xf7][..], unwrap_cbor_tag(&[0xd9, 0xd9, 0xf7]));
    assert_eq!(&[0xd9u8, 0xd9, 0xf8, 1][..], unwrap_cbor_tag(&[0xd9, 0xd9, 0xf8, 1]));
    assert_eq!(&[1u8][..], unwrap_cbor_tag(&[1]));
    let empty: &[u8] = &[];
    assert_eq!(empty, unwrap_cbor_tag(&[]));
}

#[test]
fn base64url_known_values() {
    assert_eq!(
        "2dn3AQID-vs",
        base64url_encode(&[0xd9, 0xd9, 0xf7, 1, 2, 3, 250, 251])
    );
    assert_eq!("", base64url_encode(&[]));
    assert_eq!(
        Ok(vec![0xd9u8, 0xd9, 0xf7, 1, 2, 3, 250, 251]),
        base64url_decode("2dn3AQID-vs")
    );
    let key = base64url_decode("YiWenAI-_-_-_-_-_-_-_-_-_-_-_-_-_-_-_-_-LLc").unwrap();
    assert_eq!(32, key.len());
    assert_eq!([98u8, 37, 158, 156], key[..4]);
    assert_eq!([44u8, 183], key[30..]);
    assert_eq!(Err(Error::InvalidArgument), base64url_decode("2dn3AQID+vs"));
    assert_eq!(Err(Error::InvalidArgument), base64url_decode("2dn3AQID-vs="));
}

#[test]
fn fields_of_a_list() {
    let none: Vec<String> = vec![];
    assert_eq!(none, get_fields(None));
    assert_eq!(none, get_fields(Some("".to_string())));
    assert_eq!(none, get_fields(Some(" \t\n".to_string())));
    assert_eq!(strings(&["a"]), get_fields(Some("a".to_string())));
    assert_eq!(
        strings(&["uid", "status", "kind"]),
        get_fields(Some(" uid, status ,kind\n".to_string()))
    );
    assert_eq!(strings(&["", "a", "", ""]), get_fields(Some(",a, ,".to_string())));
    assert_eq!(strings(&["é x", "日本"]), get_fields(Some("\u{3000}é x ,日本".to_string())));
    assert_eq!("a b", trim("\u{a0} a b\r\n"));
    assert_eq!("", trim("   "));
    assert_eq!("x", trim("x"));
}

#[test]
fn selection_of_columns() {
    assert_eq!(
        strings(&[
            "uid", "id", "sequence", "payee", "sub_payee", "status", "kind", "amount", "sys_fee",
            "sub_shares", "description", "payload"
        ]),
        Transaction::fields()
    );
    assert_eq!(Ok(Transaction::fields()), Transaction::select_fields(vec![], true));
    assert_eq!(
        Ok(strings(&["amount", "status", "kind"])),
        Transaction::select_fields(strings(&["amount"]), false)
    );
    assert_eq!(
        Ok(strings(&["kind", "id", "status", "uid"])),
        Transaction::select_fields(strings(&["kind", "id"]), true)
    );
    assert_eq!(
        Err(Error::InvalidArgument),
        Transaction::select_fields(strings(&["amount", "txn"]), true)
    );
    assert_eq!(
        Ok(strings(&["amount", "kind", "uid", "txn"])),
        Credit::select_fields(strings(&["amount"]), true)
    );
    assert_eq!(
        strings(&["uid", "txn", "kind", "amount", "description"]),
        Credit::fields()
    );
    assert_eq!(
        Ok(strings(&["txn", "status", "quantity", "provider", "expire_at"])),
        Charge::select_fields(strings(&["txn"]), false)
    );
    assert_eq!(16, Charge::fields().len());
    assert_eq!(
        strings(&["uid", "sequence", "award", "topup", "income", "credits", "txn", "checksum"]),
        Wallet::fields()
    );
    assert_eq!(
        Ok(strings(&["id", "id", "status"])),
        select(&CHARGE_COLUMNS, strings(&["id", "id"]), &["status"], &["id"], true)
    );
}

#[test]
fn currency_table() {
    let all = currencies();
    assert_eq!(12, all.len());
    let codes: Vec<&str> = all.iter().map(|c| c.alpha).collect();
    assert_eq!(
        vec!["HKD", "USD", "CNY", "EUR", "JPY", "GBP", "CAD", "SGD", "AUD", "AED", "KRW", "RUB"],
        codes
    );
    assert!(all.iter().all(|c| c.decimals <= 3));
    let usd = Currency::from_str("usd").unwrap();
    assert_eq!(("US Dollar", "USD", 2, 840), (usd.name, usd.alpha, usd.decimals, usd.code));
    let krw = Currency::from_str("KrW").unwrap();
    assert_eq!(("원", 0, 410), (krw.name, krw.decimals, krw.code));
    assert_eq!(392, Currency::from_str("JPY").unwrap().code);
    assert_eq!(Some(Error::InvalidArgument), Currency::from_str("US").err());
    assert_eq!(Some(Error::InvalidArgument), Currency::from_str("usdd").err());
    assert_eq!(Some(Error::InvalidArgument), Currency::from_str("").err());
}

#[test]
fn pages() {
    assert_eq!(Ok(10), page_size(None));
    assert_eq!(Ok(2), page_size(Some(2)));
    assert_eq!(Ok(1000), page_size(Some(1000)));
    assert_eq!(Err(Error::InvalidArgument), page_size(Some(1)));
    assert_eq!(Err(Error::InvalidArgument), page_size(Some(1001)));
    assert_eq!(Id([255; 12]), scan_below(None));
    assert_eq!(Id([255; 12]), max_id());
    assert_eq!(Id([0, 0, 0, 0, 255, 255, 255, 255, 255, 255, 255, 255]), min_id());
    let a = Id::new();
    let b = Id::new();
    assert_eq!(a, scan_below(Some(a)));
    assert_eq!(None, next_page_token(&vec![a], 2));
    assert_eq!(Some(b), next_page_token(&vec![a, b], 2));
    assert_eq!(Some(b), next_page_token(&vec![a, a, b], 2));
    assert_eq!(None, next_page_token(&vec![], 2));
}

#[test]
fn input_bounds() {
    assert_eq!(Ok(()), check_amount(1));
    assert_eq!(Ok(()), check_amount(1_000_000));
    assert_eq!(Err(Error::InvalidArgument), check_amount(0));
    assert_eq!(Err(Error::InvalidArgument), check_amount(1_000_001));
    assert_eq!(Ok(()), check_positive(1));
    assert_eq!(Ok(()), check_positive(i64::MAX));
    assert_eq!(Err(Error::InvalidArgument), check_positive(0));
    assert_eq!(Ok(()), check_award(1, 0));
    assert_eq!(Ok(()), check_award(1, 1_000_000));
    assert_eq!(Err(Error::InvalidArgument), check_award(1, 1_000_001));
    assert_eq!(Err(Error::InvalidArgument), check_award(0, 1));
    assert_eq!(Ok(()), check_status_filter(None));
    assert_eq!(Ok(()), check_status_filter(Some(-1)));
    assert_eq!(Ok(()), check_status_filter(Some(2)));
    assert_eq!(Err(Error::InvalidArgument), check_status_filter(Some(3)));
    assert_eq!(Err(Error::InvalidArgument), check_status_filter(Some(-2)));
    assert_eq!(Ok(()), validate_provider("stripe"));
    assert_eq!(Err(Error::InvalidArgument), validate_provider("Stripe"));
    assert_eq!(Err(Error::InvalidArgument), validate_provider(""));
    assert!(payer_shown(TransactionKind::Award));
    assert!(payer_shown(TransactionKind::Subscribe));
    assert!(!payer_shown(TransactionKind::Spend));
    assert!(!payer_shown(TransactionKind::Withdraw));
}
