use walletbase::customer::{CustomerReply, CustomerRequest, UpsertMachine, UpsertPhase};
use walletbase::{Customer, Error, Id};

fn strings(v: &[&str]) -> Vec<String> {
    v.iter().map(|s| s.to_string()).collect()
}

#[test]
fn customer_is_inserted_where_there_is_none() {
    let uid = Id::new();
    let (mut m, first) =
        UpsertMachine::start(uid, "stripe".to_string(), "cus_123".to_string(), vec![0xa0], 77);
    assert!(matches!(
        first,
        Some(CustomerRequest::Get { uid: u, ref provider }) if u == uid && provider == "stripe"
    ));
    let next = m.step(CustomerReply::NotFound);
    match next {
        Some(CustomerRequest::Insert { row }) => {
            assert_eq!((77, 77), (row.created_at, row.updated_at));
            assert_eq!("cus_123", row.customer);
            assert_eq!(vec![0xa0u8], row.payload);
            assert!(row.customers.is_empty());
        }
        other => panic!("unexpected request {:?}", other),
    }
    assert!(m.step(CustomerReply::Applied(true)).is_none());
    assert_eq!(Ok(true), m.outcome());
    assert_eq!(77, m.row.created_at);
}

#[test]
fn customer_is_replaced_and_the_former_kept() {
    let uid = Id::new();
    let mut stored = Customer::with_pk(uid, "stripe".to_string());
    stored.customer = "cus_123".to_string();
    stored.created_at = 5;
    stored.updated_at = 5;

    let (mut m, _) = UpsertMachine::start(
        uid,
        "stripe".to_string(),
        "cus_456".to_string(),
        vec![0xa2, 1, 2],
        99,
    );
    // Someone else inserted the row meanwhile.
    assert!(matches!(
        m.step(CustomerReply::NotFound),
        Some(CustomerRequest::Insert { .. })
    ));
    assert!(matches!(
        m.step(CustomerReply::Applied(false)),
        Some(CustomerRequest::Get { .. })
    ));
    match m.step(CustomerReply::Row(stored)) {
        Some(CustomerRequest::Replace {
            updated_at,
            customer,
            payload,
            former,
            ..
        }) => {
            assert_eq!(99, updated_at);
            assert_eq!("cus_456", customer);
            assert_eq!(vec![0xa2u8, 1, 2], payload);
            assert_eq!("cus_123", former);
        }
        other => panic!("unexpected request {:?}", other),
    }
    assert!(m.step(CustomerReply::Applied(true)).is_none());
    assert_eq!(Ok(true), m.outcome());
    assert_eq!((5, 99), (m.row.created_at, m.row.updated_at));
    assert_eq!("cus_456", m.row.customer);
    assert_eq!(strings(&["cus_123"]), m.row.customers);
}

#[test]
fn customer_that_is_recorded_already_is_left() {
    let uid = Id::new();
    let mut stored = Customer::with_pk(uid, "stripe".to_string());
    stored.customer = "cus_123".to_string();
    let (mut m, _) =
        UpsertMachine::start(uid, "stripe".to_string(), "cus_123".to_string(), vec![], 9);
    assert!(m.step(CustomerReply::Row(stored)).is_none());
    assert_eq!(Ok(false), m.outcome());
    assert!(matches!(m.phase, UpsertPhase::Succeeded(false)));
    assert!(m.step(CustomerReply::Applied(true)).is_none());
    assert_eq!(Ok(false), m.outcome());
}

#[test]
fn customer_failures() {
    let uid = Id::new();
    let start = || UpsertMachine::start(uid, "stripe".to_string(), "c".to_string(), vec![], 9).0;
    let mut m = start();
    assert!(m.step(CustomerReply::Failed).is_none());
    assert_eq!(Err(Error::StoreUnavailable), m.outcome());

    let mut m = start();
    let mut other = Customer::with_pk(uid, "stripe".to_string());
    other.customer = "b".to_string();
    assert!(m.step(CustomerReply::Row(other)).is_some());
    assert!(m.step(CustomerReply::Applied(false)).is_none());
    assert_eq!(Err(Error::StatusConflict), m.outcome());

    let mut m = start();
    m.step(CustomerReply::NotFound);
    m.step(CustomerReply::Applied(false));
    assert!(m.step(CustomerReply::NotFound).is_none());
    assert_eq!(Err(Error::NotFound), m.outcome());

    let mut m = start();
    let stray = Customer::with_pk(Id::new(), "stripe".to_string());
    assert!(m.step(CustomerReply::Row(stray)).is_none());
    assert_eq!(Err(Error::StoreUnavailable), m.outcome());

    assert_eq!(
        Ok(strings(&["payload", "customer", "uid", "provider"])),
        Customer::select_fields(strings(&["payload"]), true)
    );
    assert_eq!(7, Customer::fields().len());
}

/// A customer table with one row at most, which answers as the store does.
fn answer(table: &mut Option<Customer>, request: CustomerRequest) -> CustomerReply {
    match request {
        CustomerRequest::Get { .. } => match table {
            Some(row) => {
                let mut copy = Customer::with_pk(row.uid, row.provider.clone());
                copy.created_at = row.created_at;
                copy.updated_at = row.updated_at;
                copy.customer = row.customer.clone();
                copy.payload = row.payload.clone();
                copy.customers = row.customers.clone();
                CustomerReply::Row(copy)
            }
            None => CustomerReply::NotFound,
        },
        CustomerRequest::Insert { row } => {
            if table.is_some() {
                CustomerReply::Applied(false)
            } else {
                *table = Some(row);
                CustomerReply::Applied(true)
            }
        }
        CustomerRequest::Replace {
            updated_at,
            customer,
            payload,
            former,
            ..
        } => match table {
            Some(row) if row.customer == former => {
                row.updated_at = updated_at;
                row.customer = customer;
                row.payload = payload;
                if !row.customers.contains(&former) {
                    row.customers.push(former);
                }
                CustomerReply::Applied(true)
            }
            _ => CustomerReply::Applied(false),
        },
    }
}

fn upsert(
    table: &mut Option<Customer>,
    uid: Id,
    customer: &str,
    payload: Vec<u8>,
    now: i64,
) -> Result<bool, Error> {
    let (mut m, mut request) =
        UpsertMachine::start(uid, "stripe".to_string(), customer.to_string(), payload, now);
    while let Some(req) = request {
        let reply = answer(table, req);
        request = m.step(reply);
    }
    m.outcome()
}

#[test]
fn customer_model_works() {
    let uid = Id::new();
    let mut table: Option<Customer> = None;

    assert!(upsert(&mut table, uid, "cus_123", vec![0xa0], 1_000).unwrap());
    let customer = table.as_ref().unwrap();
    assert!(customer.created_at > 0);
    assert_eq!(customer.created_at, customer.updated_at);
    assert_eq!(customer.customer, "cus_123");
    assert_eq!(customer.payload, vec![0xa0]);
    assert_eq!(customer.customers.len(), 0);
    let first_update = customer.updated_at;

    assert!(!upsert(&mut table, uid, "cus_123", vec![0xa0], 1_500).unwrap());
    assert!(upsert(
        &mut table,
        uid,
        "cus_456",
        vec![0xa2, 0x01, 0x02, 0x03, 0x04],
        2_000
    )
    .unwrap());
    let c2 = table.as_ref().unwrap();
    assert!(c2.updated_at > first_update);
    assert_eq!(c2.customer, "cus_456");
    assert_eq!(c2.payload, vec![0xa2, 0x01, 0x02, 0x03, 0x04]);
    assert_eq!(c2.customers.len(), 1);
    assert!(c2.customers.contains(&"cus_123".to_string()));
}
