use walletbase::charge::{CHARGE_WINDOW_MS, CHARGE_EXPIRED};
use walletbase::complete::complete_as;
use walletbase::{
    sys_id, Charge, ChargeUpdate, Error, HMacTag, Id, MemStore, Reply, Request,
};

fn awaiting_charge(db: &mut MemStore, uid: Id, now: i64) -> Charge {
    let mut charge = Charge::from_input(
        uid,
        "stripe".to_string(),
        500,
        Some("usd".to_string()),
        Some(499),
        Some("ch_1".to_string()),
        Some(vec![0xa0]),
    )
    .unwrap();
    assert_eq!(1, charge.status);
    assert_eq!(Ok(true), charge.save(db, now));
    charge
}

#[test]
fn charge_save_sets_identifier_and_expiry() {
    let mut db = MemStore::new();
    let uid = Id::new();
    let charge = awaiting_charge(&mut db, uid, 1_000);
    assert!(!charge.id.is_zero());
    assert_eq!(1_000, charge.updated_at);
    assert_eq!(1_000 + 24 * 3600 * 1000, charge.expire_at);
    assert_eq!(CHARGE_WINDOW_MS, charge.expire_at - charge.updated_at);
    let stored = db.charge(uid, charge.id).unwrap();
    assert_eq!("usd", stored.currency);
    assert_eq!(499, stored.amount);
    assert_eq!("ch_1", stored.charge_id);

    let mut bad = Charge::with_pk(uid, sys_id());
    bad.status = 2;
    assert_eq!(Err(Error::InvalidArgument), bad.save(&mut db, 1_000));
    let mut late = Charge::with_pk(uid, sys_id());
    assert_eq!(Err(Error::Overflow), late.save(&mut db, i64::MAX));
    let mut twin = Charge::with_pk(uid, sys_id());
    assert_eq!(
        Err(Error::StatusConflict),
        twin.save_as(&mut db, charge.id, 5)
    );
}

#[test]
fn charge_read_after_expiry_shows_expired() {
    let mut db = MemStore::new();
    let uid = Id::new();
    let charge = awaiting_charge(&mut db, uid, 1_000);

    let mut seen = db.charge(uid, charge.id).unwrap();
    seen.observe(charge.expire_at - 1);
    assert_eq!(1, seen.status);
    seen.observe(charge.expire_at);
    assert_eq!(CHARGE_EXPIRED, seen.status);
    assert_eq!("checkout.expired", seen.failure_msg);
    // Nothing was written.
    assert_eq!(1, db.charge(uid, charge.id).unwrap().status);

    let mut open = Charge::with_pk(uid, Id::new());
    open.observe(1_000_000);
    assert_eq!(0, open.status);
    let mut done = Charge::with_pk(uid, Id::new());
    done.status = 3;
    done.expire_at = 5;
    done.observe(10);
    assert_eq!(3, done.status);
}

#[test]
fn charge_update_is_guarded_by_the_status() {
    let mut db = MemStore::new();
    let uid = Id::new();
    let charge = awaiting_charge(&mut db, uid, 1_000);

    let mut changes = ChargeUpdate::default();
    changes.status = Some(-2);
    changes.failure_code = Some("timeout".to_string());
    let mut doc = Charge::with_pk(uid, charge.id);
    assert_eq!(
        Err(Error::StatusConflict),
        doc.update(&mut db, changes.clone(), 0, 2_000)
    );
    assert_eq!(1, doc.status);
    assert_eq!(1, db.charge(uid, charge.id).unwrap().status);

    let mut doc = Charge::with_pk(uid, charge.id);
    assert_eq!(Ok(true), doc.update(&mut db, changes.clone(), 1, 2_000));
    assert_eq!(-2, doc.status);
    assert_eq!(2_000, doc.updated_at);
    let stored = db.charge(uid, charge.id).unwrap();
    assert_eq!(-2, stored.status);
    assert_eq!("timeout", stored.failure_code);
    assert_eq!(499, stored.amount);
    assert_eq!(2_000, stored.updated_at);

    let mut missing = Charge::with_pk(uid, Id::new());
    assert_eq!(
        Err(Error::NotFound),
        missing.update(&mut db, changes, -2, 3_000)
    );
}

#[test]
fn update_input_rules() {
    let mut u = ChargeUpdate::default();
    assert_eq!(Err(Error::InvalidArgument), u.check_input(0));
    u.status = Some(1);
    assert_eq!(Ok(()), u.check_input(0));
    assert_eq!(Err(Error::InvalidArgument), u.check_input(2));
    u.status = Some(-1);
    assert_eq!(Err(Error::InvalidArgument), u.check_input(0));
    u.status = Some(2);
    assert_eq!(Err(Error::InvalidArgument), u.check_input(1));
    u.status = Some(1);
    u.failure_code = Some("x".to_string());
    assert_eq!(Err(Error::InvalidArgument), u.check_input(1));
    u.status = Some(-2);
    assert_eq!(Ok(()), u.check_input(1));
    u.amount = Some(0);
    assert_eq!(Err(Error::InvalidArgument), u.check_input(1));
    u.amount = Some(1);
    u.txn = Some(Id::new());
    assert_eq!(Err(Error::InvalidArgument), u.check_input(1));
    assert!(Charge::check_update_fields(&vec!["status".to_string(), "txn".to_string()]).is_ok());
    assert_eq!(
        Err(Error::InvalidArgument),
        Charge::check_update_fields(&vec!["status".to_string(), "quantity".to_string()])
    );
}

#[test]
fn new_charge_rules() {
    let uid = Id::new();
    let plain = Charge::from_input(uid, "stripe".to_string(), 50, None, None, None, None).unwrap();
    assert_eq!((0, 50, 0), (plain.status, plain.quantity, plain.amount));
    assert_eq!("", plain.currency);
    for quantity in [49, 1_000_001] {
        assert!(
            Charge::from_input(uid, "stripe".to_string(), quantity, None, None, None, None)
                .is_err()
        );
    }
    assert!(Charge::from_input(uid, "paypal".to_string(), 50, None, None, None, None).is_err());
    assert!(Charge::from_input(uid, "stripe".to_string(), 50, None, Some(5), None, None).is_err());
    assert!(Charge::from_input(
        uid,
        "stripe".to_string(),
        50,
        Some("xyz".to_string()),
        Some(5),
        None,
        None
    )
    .is_err());
    assert!(Charge::from_input(
        uid,
        "stripe".to_string(),
        50,
        Some("JPY".to_string()),
        Some(0),
        None,
        None
    )
    .is_err());
    let priced = Charge::from_input(
        uid,
        "stripe".to_string(),
        50,
        Some("Jpy".to_string()),
        Some(5),
        None,
        None,
    )
    .unwrap();
    assert_eq!("jpy", priced.currency);
    assert!(Charge::from_input(
        uid,
        "stripe".to_string(),
        50,
        None,
        None,
        Some("ch".to_string()),
        None
    )
    .is_err());
}

fn system_store() -> MemStore {
    let mut db = MemStore::new();
    assert!(matches!(
        db.execute(Request::CreateWallet { uid: sys_id() }),
        Reply::Applied(true)
    ));
    db
}

#[test]
fn complete_tops_up_once() {
    let mut db = system_store();
    let mac = HMacTag::new([3u8; 32]);
    let uid = Id::new();
    let charge = awaiting_charge(&mut db, uid, 1_000);
    let txn_id = Id::new();

    let done = complete_as(
        &mut db,
        &mac,
        uid,
        charge.id,
        "usd".to_string(),
        499,
        "ch_1".to_string(),
        vec![0xa1],
        vec![0xa2],
        txn_id,
        2_000,
    )
    .unwrap();
    assert_eq!(3, done.status);
    assert_eq!(Some(txn_id), done.txn);
    assert_eq!(vec![0xa1u8], done.charge_payload);
    let stored = db.charge(uid, charge.id).unwrap();
    assert_eq!((3, Some(txn_id), 2_000), (stored.status, stored.txn, stored.updated_at));
    let wallet = db.wallet(uid).unwrap();
    assert_eq!((0, 500, 0, 1), (wallet.award, wallet.topup, wallet.income, wallet.sequence));
    assert_eq!(-500, db.wallet(sys_id()).unwrap().topup);
    let txn = db.transaction(sys_id(), txn_id).unwrap();
    assert_eq!((3, 500), (txn.status, txn.amount));
    assert_eq!("topup", txn.kind);
    assert_eq!("stripe.topup", txn.description);
    assert_eq!(vec![0xa2u8], txn.payload);

    // Once more: the charge is committed, nothing moves.
    let again = complete_as(
        &mut db,
        &mac,
        uid,
        charge.id,
        "usd".to_string(),
        499,
        "ch_1".to_string(),
        vec![0xa1],
        vec![0xa2],
        Id::new(),
        3_000,
    )
    .unwrap();
    assert_eq!((3, Some(txn_id)), (again.status, again.txn));
    assert_eq!(500, db.wallet(uid).unwrap().topup);
    assert_eq!(1, db.wallet(uid).unwrap().sequence);
}

#[test]
fn complete_finishes_a_confirmed_charge_without_a_second_transaction() {
    let mut db = system_store();
    let mac = HMacTag::new([3u8; 32]);
    let uid = Id::new();
    let charge = awaiting_charge(&mut db, uid, 1_000);
    // The charge is confirmed and names its transaction; the last move is missing.
    let txn_id = Id::new();
    let mut left = ChargeUpdate::default();
    left.status = Some(2);
    left.txn = Some(txn_id);
    let mut doc = Charge::with_pk(uid, charge.id);
    assert_eq!(Ok(true), doc.update(&mut db, left, 1, 1_500));

    let other = Id::new();
    let done = complete_as(
        &mut db,
        &mac,
        uid,
        charge.id,
        "usd".to_string(),
        499,
        "ch_1".to_string(),
        vec![0xa1],
        vec![0xa2],
        other,
        2_000,
    )
    .unwrap();
    assert_eq!((3, Some(txn_id)), (done.status, done.txn));
    assert!(db.transaction(sys_id(), other).is_none());
    assert!(db.wallet(uid).is_none());
    assert_eq!(0, db.wallet(sys_id()).unwrap().topup);
}

#[test]
fn complete_refusals() {
    let mut db = system_store();
    let mac = HMacTag::new([3u8; 32]);
    let uid = Id::new();
    let charge = awaiting_charge(&mut db, uid, 1_000);
    let attempt = |db: &mut MemStore, id: Id, charge_id: &str| {
        complete_as(
            db,
            &mac,
            uid,
            id,
            "usd".to_string(),
            499,
            charge_id.to_string(),
            vec![],
            vec![],
            Id::new(),
            2_000,
        )
        .map(|c| c.status)
    };
    assert_eq!(Err(Error::NotFound), attempt(&mut db, Id::new(), "ch_1"));
    assert_eq!(Err(Error::InvalidArgument), attempt(&mut db, charge.id, "ch_2"));
    assert_eq!(1, db.charge(uid, charge.id).unwrap().status);

    let mut fresh = Charge::from_input(uid, "stripe".to_string(), 60, None, None, None, None)
        .unwrap();
    fresh.save(&mut db, 1_000).unwrap();
    assert_eq!(Err(Error::StatusConflict), attempt(&mut db, fresh.id, ""));
    assert!(db.wallet(uid).is_none());
}

#[test]
fn charges_are_listed_by_status() {
    let mut db = MemStore::new();
    let uid = Id::new();
    let mut waiting = Charge::from_input(uid, "stripe".to_string(), 60, None, None, None, None)
        .unwrap();
    waiting
        .save_as(&mut db, Id([1, 0, 0, 0, 0, 0, 0, 0, 0, 0, 0, 0]), 10)
        .unwrap();
    let mut asked = awaiting_charge(&mut MemStore::new(), uid, 10);
    asked
        .save_as(&mut db, Id([2, 0, 0, 0, 0, 0, 0, 0, 0, 0, 0, 0]), 20)
        .unwrap();
    let all = Charge::list(&db, uid, vec![], 10, None, None).unwrap();
    assert_eq!(vec![asked.id, waiting.id], all.iter().map(|c| c.id).collect::<Vec<Id>>());
    let open = Charge::list(&db, uid, vec![], 10, None, Some(0)).unwrap();
    assert_eq!(vec![waiting.id], open.iter().map(|c| c.id).collect::<Vec<Id>>());
    assert!(Charge::list(&db, Id::new(), vec![], 10, None, None)
        .unwrap()
        .is_empty());
    assert!(Charge::list(&db, uid, vec!["uid".to_string(), "nope".to_string()], 10, None, None)
        .is_err());
}

#[test]
fn sweeper_expires_a_charge_that_ran_out() {
    let mut db = MemStore::new();
    let uid = Id::new();
    let charge = awaiting_charge(&mut db, uid, 1_000);
    assert!(charge.expiry(charge.expire_at - 1).is_none());
    let changes = charge.expiry(charge.expire_at).unwrap();
    assert_eq!(Some(-2), changes.status);
    let mut doc = Charge::with_pk(uid, charge.id);
    assert_eq!(
        Ok(true),
        doc.update(&mut db, changes, charge.status, charge.expire_at)
    );
    let stored = db.charge(uid, charge.id).unwrap();
    assert_eq!(-2, stored.status);
    assert_eq!("checkout.expired", stored.failure_msg);
    assert!(stored.expiry(i64::MAX).is_none());

    // No update sets the status that is kept for failures.
    let mut failed = ChargeUpdate::default();
    failed.status = Some(-1);
    let mut doc = Charge::with_pk(uid, charge.id);
    assert_eq!(
        Err(Error::InvalidArgument),
        doc.update(&mut db, failed, -2, 5)
    );
    assert_eq!(-2, db.charge(uid, charge.id).unwrap().status);
}

#[test]
fn charge_status_moves_on_condition() {
    let mut db = MemStore::new();
    let uid = Id::new();
    let charge = awaiting_charge(&mut db, uid, 1_000);
    let mut doc = Charge::with_pk(uid, charge.id);
    assert_eq!(Ok(false), doc.set_status(&mut db, 0, 2));
    assert_eq!(1, doc.status);
    assert_eq!(Ok(true), doc.set_status(&mut db, 1, 2));
    assert_eq!(2, doc.status);
    let stored = db.charge(uid, charge.id).unwrap();
    assert_eq!((2, 1_000), (stored.status, stored.updated_at));
    let mut read = Charge::with_pk(uid, charge.id);
    read.get_one(&db, vec!["txn".to_string()]).unwrap();
    assert_eq!((2, 500), (read.status, read.quantity));
    assert_eq!(
        Err(Error::InvalidArgument),
        read.get_one(&db, vec!["kind".to_string()])
    );
    let mut missing = Charge::with_pk(uid, Id::new());
    assert_eq!(Err(Error::NotFound), missing.set_status(&mut db, 0, 1));
    assert_eq!(Err(Error::NotFound), missing.get_one(&db, vec![]));
}
