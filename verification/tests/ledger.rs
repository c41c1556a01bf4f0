use walletbase::{
    sys_id, Credit, CreditKind, Error, HMacTag, Id, MemStore, Reply, Request, Transaction,
    TransactionKind, Wallet,
};

fn store_with_system() -> MemStore {
    let mut db = MemStore::new();
    let reply = db.execute(Request::CreateWallet { uid: sys_id() });
    assert!(matches!(reply, Reply::Applied(true)));
    db
}

fn funded(db: &mut MemStore, mac: &HMacTag, amount: i64, credits: i64) -> Id {
    let uid = Id::new();
    let mut txn = Transaction::with_uid(sys_id());
    txn.prepare(db, mac, uid, TransactionKind::Award, amount)
        .unwrap();
    txn.commit(db, mac).unwrap();
    if credits > 0 {
        let mut credit = Credit::with_pk(uid, txn.id);
        credit.kind = CreditKind::Award.to_string();
        credit.amount = credits;
        credit.save(db).unwrap();
    }
    uid
}

#[test]
fn wallet_model_works() {
    let mut db = MemStore::new();
    let mac = HMacTag::new([1u8; 32]);
    let mut wallet: Wallet = Default::default();

    assert!(wallet.is_system());
    assert_eq!(0, wallet.balance());
    assert!(wallet.verify_checksum(&mac).is_ok());

    assert_eq!(Ok(true), wallet.save(&mut db));
    assert_eq!(Ok(false), wallet.save(&mut db));
    wallet.get_one(&db).unwrap();
    assert!(wallet.verify_checksum(&mac).is_ok());

    let txn = Id::new();
    wallet.award -= 100;
    wallet.topup -= 100;
    wallet.next_checksum(&mac, txn);
    assert!(wallet.verify_checksum(&mac).is_ok());

    wallet.uid = Id::new();
    assert!(wallet.verify_checksum(&mac).is_err());
}

#[test]
fn transaction_model_works() {
    let mut db = store_with_system();
    let mac = HMacTag::new([1u8; 32]);
    let payee = Id::new();

    // invalid args
    {
        let mut txn: Transaction = Default::default();
        let res = txn.prepare(&mut db, &mac, payee, TransactionKind::Award, -1);
        assert_eq!(Err(Error::InvalidArgument), res);
        let res = txn.prepare(&mut db, &mac, payee, TransactionKind::Award, 0);
        assert_eq!(Err(Error::InvalidArgument), res);

        txn.sub_payee = Some(payee);
        let res = txn.prepare(&mut db, &mac, payee, TransactionKind::Award, 1);
        assert_eq!(Err(Error::InvalidArgument), res);

        txn.sub_payee = Some(Id::new());
        let res = txn.prepare(&mut db, &mac, payee, TransactionKind::Award, 1);
        assert_eq!(Err(Error::InvalidArgument), res);
    }

    // prepare and commit
    {
        assert!(db.wallet(payee).is_none());

        let sys_wallet = db.wallet(sys_id()).unwrap();
        sys_wallet.verify_checksum(&mac).unwrap();
        let prev_balance = sys_wallet.balance();
        let prev_amount = sys_wallet.award;

        let mut txn: Transaction = Default::default();
        txn.prepare(&mut db, &mac, payee, TransactionKind::Award, 100)
            .unwrap();
        assert_eq!(1, txn.status);
        assert!(txn.credits().is_empty());

        let sys_wallet = db.wallet(sys_id()).unwrap();
        sys_wallet.verify_checksum(&mac).unwrap();
        assert_eq!(prev_balance - 100, sys_wallet.balance());
        assert_eq!(prev_amount - 100, sys_wallet.award);
        assert_eq!(txn.sequence + 1, sys_wallet.sequence);
        assert_eq!(txn.id, sys_wallet.txn);
        assert!(!sys_wallet.txn.is_zero());

        assert_eq!(payee, txn.payee);
        assert_eq!(1, txn.status);
        assert_eq!("award", txn.kind);
        assert_eq!(100, txn.amount);
        assert_eq!(0, txn.sys_fee);
        assert_eq!(0, txn.sub_shares);

        assert!(db.wallet(payee).is_none());

        txn.commit(&mut db, &mac).unwrap();
        assert_eq!(3, txn.status);
        assert!(txn.credits().is_empty());
        let payee_wallet = db.wallet(payee).unwrap();
        assert_eq!(100, payee_wallet.award);
        assert_eq!(100, payee_wallet.balance());
        assert_eq!(1, payee_wallet.sequence);
    }

    // prepare and cancel
    {
        let payer = Id::new();
        assert!(db.wallet(payer).is_none());

        let mut txn: Transaction = Transaction::with_uid(sys_id());
        txn.prepare(&mut db, &mac, payer, TransactionKind::Award, 1000)
            .unwrap();
        txn.commit(&mut db, &mac).unwrap();
        let payer_wallet = db.wallet(payer).unwrap();
        assert_eq!(1000, payer_wallet.award);
        assert_eq!(1000, payer_wallet.balance());
        assert_eq!(1, payer_wallet.sequence);

        let mut txn: Transaction = Transaction::with_uid(payer);
        txn.kind = "award".to_string();
        let res = txn.cancel(&mut db, &mac);
        assert_eq!(Err(Error::StatusConflict), res);
        assert_eq!(0, txn.status);

        txn.status = 1;
        let res = txn.cancel(&mut db, &mac);
        assert_eq!(Err(Error::InvalidArgument), res);
        assert_eq!(0, txn.amount);

        let mut txn: Transaction = Transaction::with_uid(payer);
        txn.prepare(&mut db, &mac, sys_id(), TransactionKind::Spend, 400)
            .unwrap();

        let payer_wallet = db.wallet(payer).unwrap();
        payer_wallet.verify_checksum(&mac).unwrap();
        assert_eq!(600, payer_wallet.award);
        assert_eq!(0, payer_wallet.topup);
        assert_eq!(2, payer_wallet.sequence);
        assert_eq!(txn.id, payer_wallet.txn);
        assert_eq!(1, txn.status);

        txn.cancel(&mut db, &mac).unwrap();
        assert_eq!(-2, txn.status);

        let payer_wallet = db.wallet(payer).unwrap();
        payer_wallet.verify_checksum(&mac).unwrap();
        assert_eq!(600, payer_wallet.award);
        assert_eq!(400, payer_wallet.topup);
        assert_eq!(3, payer_wallet.sequence);
        assert_eq!(txn.id, payer_wallet.txn);

        let stored = db.transaction(txn.uid, txn.id).unwrap();
        assert_eq!(-2, stored.status);

        let mut txn: Transaction = Transaction::with_uid(payer);
        txn.prepare(&mut db, &mac, sys_id(), TransactionKind::Spend, 100)
            .unwrap();
        txn.commit(&mut db, &mac).unwrap();
        let payer_wallet = db.wallet(payer).unwrap();
        payer_wallet.verify_checksum(&mac).unwrap();
        assert_eq!(500, payer_wallet.award);
        assert_eq!(400, payer_wallet.topup);
        assert_eq!(4, payer_wallet.sequence);
        assert_eq!(txn.id, payer_wallet.txn);
        assert_eq!(3, txn.status);

        let mut txn1: Transaction = Transaction::with_uid(payer);
        txn1.prepare(&mut db, &mac, sys_id(), TransactionKind::Spend, 600)
            .unwrap();
        let payer_wallet = db.wallet(payer).unwrap();
        payer_wallet.verify_checksum(&mac).unwrap();
        assert_eq!(0, payer_wallet.award);
        assert_eq!(300, payer_wallet.topup);
        assert_eq!(5, payer_wallet.sequence);
        assert_eq!(txn1.id, payer_wallet.txn);
        assert_eq!(1, txn1.status);

        let mut txn2: Transaction = Transaction::with_uid(payer);
        txn2.prepare(&mut db, &mac, sys_id(), TransactionKind::Spend, 100)
            .unwrap();
        txn2.commit(&mut db, &mac).unwrap();
        let payer_wallet = db.wallet(payer).unwrap();
        payer_wallet.verify_checksum(&mac).unwrap();
        assert_eq!(0, payer_wallet.award);
        assert_eq!(200, payer_wallet.topup);
        assert_eq!(6, payer_wallet.sequence);
        assert_eq!(txn2.id, payer_wallet.txn);
        assert_eq!(3, txn2.status);

        txn1.cancel(&mut db, &mac).unwrap();
        assert_eq!(-2, txn1.status);

        let payer_wallet = db.wallet(payer).unwrap();
        payer_wallet.verify_checksum(&mac).unwrap();
        assert_eq!(0, payer_wallet.award);
        assert_eq!(800, payer_wallet.topup);
        assert_eq!(7, payer_wallet.sequence);
        assert_eq!(txn1.id, payer_wallet.txn);

        let stored = db.transaction(txn1.uid, txn1.id).unwrap();
        assert_eq!(-2, stored.status);
    }

    // commit and credits
    {
        let payer = Id::new();
        let payee = Id::new();
        let sub_payee = Id::new();
        assert!(db.wallet(payer).is_none());
        assert!(db.wallet(payee).is_none());
        assert!(db.wallet(sub_payee).is_none());

        let mut txn: Transaction = Default::default();
        txn.prepare(&mut db, &mac, payer, TransactionKind::Award, 1000)
            .unwrap();
        txn.commit(&mut db, &mac).unwrap();
        assert!(txn.credits().is_empty());

        let mut credit = Credit::with_pk(payer, txn.id);
        credit.kind = CreditKind::Award.to_string();
        credit.amount = 10;
        credit.save(&mut db).unwrap();

        let payer_wallet = db.wallet(payer).unwrap();
        assert_eq!(1000, payer_wallet.award);
        assert_eq!(1000, payer_wallet.balance());
        assert_eq!(10, payer_wallet.credits);
        assert_eq!(1, payer_wallet.sequence);

        let mut txn: Transaction = Transaction::with_uid(payer);
        txn.prepare(&mut db, &mac, payee, TransactionKind::Sponsor, 100)
            .unwrap();
        txn.commit(&mut db, &mac).unwrap();

        let mut credits = txn.credits();
        assert_eq!(2, credits.len());
        assert_eq!(100, credits[0].amount);
        assert_eq!("payout", credits[0].kind);
        assert_eq!(70, credits[1].amount);
        assert_eq!("income", credits[1].kind);
        Credit::save_all(&mut db, &mut credits).unwrap();

        let payer_wallet = db.wallet(payer).unwrap();
        assert_eq!(900, payer_wallet.award);
        assert_eq!(900, payer_wallet.balance());
        assert_eq!(110, payer_wallet.credits);
        assert_eq!(2, payer_wallet.sequence);

        let payee_wallet = db.wallet(payee).unwrap();
        assert_eq!(70, payee_wallet.income);
        assert_eq!(70, payee_wallet.balance());
        assert_eq!(0, payee_wallet.credits);
        assert_eq!(1, payee_wallet.sequence);

        let mut credit = Credit::with_pk(payee, txn.id);
        credit.kind = CreditKind::Award.to_string();
        credit.amount = 10;
        credit.save(&mut db).unwrap();
        let payee_wallet = db.wallet(payee).unwrap();
        assert_eq!(70, payee_wallet.income);
        assert_eq!(70, payee_wallet.balance());
        assert_eq!(10, payee_wallet.credits);
        assert_eq!(1, payee_wallet.sequence);

        let mut txn: Transaction = Transaction::with_uid(payer);
        txn.sub_payee = Some(sub_payee);
        txn.prepare(&mut db, &mac, payee, TransactionKind::Subscribe, 200)
            .unwrap();
        txn.commit(&mut db, &mac).unwrap();

        let mut credit = Credit::with_pk(sub_payee, Id::new());
        credit.kind = CreditKind::Award.to_string();
        credit.amount = 1;
        credit.save(&mut db).unwrap();

        let mut credits = txn.credits();
        assert_eq!(3, credits.len());
        assert_eq!(200, credits[0].amount);
        assert_eq!("payout", credits[0].kind);
        assert_eq!(70, credits[1].amount);
        assert_eq!("income", credits[1].kind);
        assert_eq!(70, credits[2].amount);
        assert_eq!("income", credits[2].kind);
        Credit::save_all(&mut db, &mut credits).unwrap();

        let payer_wallet = db.wallet(payer).unwrap();
        assert_eq!(700, payer_wallet.award);
        assert_eq!(700, payer_wallet.balance());
        assert_eq!(310, payer_wallet.credits);
        assert_eq!(3, payer_wallet.sequence);

        let payee_wallet = db.wallet(payee).unwrap();
        assert_eq!(140, payee_wallet.income);
        assert_eq!(140, payee_wallet.balance());
        assert_eq!(80, payee_wallet.credits);
        assert_eq!(2, payee_wallet.sequence);

        let sub_wallet = db.wallet(sub_payee).unwrap();
        assert_eq!(70, sub_wallet.income);
        assert_eq!(70, sub_wallet.balance());
        assert_eq!(71, sub_wallet.credits);
        assert_eq!(1, sub_wallet.sequence);
    }
}

#[test]
fn credit_model_works() {
    let mut db = MemStore::new();
    let uid = Id::new();
    assert!(matches!(
        db.execute(Request::CreateWallet { uid }),
        Reply::Applied(true)
    ));

    let mut credit: Credit = Default::default();
    let res = credit.save(&mut db);
    assert_eq!(Err(Error::InvalidArgument), res);
    credit.amount = 10;
    credit.save(&mut db).unwrap();
    assert!(db.credit(credit.uid, credit.txn).is_none());

    let mut credit = Credit::with_pk(uid, Id::new());
    credit.amount = 10;
    credit.kind = CreditKind::Payout.to_string();
    credit.save(&mut db).unwrap();
    assert!(db.credit(credit.uid, credit.txn).is_none());

    credit.kind = CreditKind::Award.to_string();
    credit.save(&mut db).unwrap();
    assert!(db.credit(credit.uid, credit.txn).is_some());
    assert_eq!(10, db.wallet(uid).unwrap().credits);

    credit.kind = CreditKind::Award.to_string();
    credit.save(&mut db).unwrap();
    assert_eq!(10, db.wallet(uid).unwrap().credits);

    let mut credit = Credit::with_pk(uid, Id::new());
    credit.amount = 100;
    credit.kind = CreditKind::Payout.to_string();
    credit.save(&mut db).unwrap();
    assert_eq!(110, db.wallet(uid).unwrap().credits);

    credit.save(&mut db).unwrap();
    assert_eq!(110, db.wallet(uid).unwrap().credits);

    let logs = Credit::list(&db, uid, vec![], 10, None, None).unwrap();
    assert_eq!(2, logs.len());
    assert_eq!(CreditKind::Payout.to_string(), logs[0].kind);
    assert_eq!(100i64, logs[0].amount);
    assert_eq!(CreditKind::Award.to_string(), logs[1].kind);
    assert_eq!(10i64, logs[1].amount);
}

#[test]
fn only_an_award_starts_the_credits() {
    for kind in ["payout", "income", "init", "expenditure", "Award", ""] {
        let mut db = MemStore::new();
        let uid = Id::new();
        Wallet::with_pk(uid).save(&mut db).unwrap();
        let mut credit = Credit::with_pk(uid, Id::new());
        credit.amount = 10;
        credit.kind = kind.to_string();
        assert_eq!(Ok(()), credit.save(&mut db));
        assert!(db.credit(uid, credit.txn).is_none());
        assert_eq!(0, db.wallet(uid).unwrap().credits);
        assert!(Credit::list(&db, uid, vec![], 10, None, None)
            .unwrap()
            .is_empty());
    }
}

#[test]
fn credit_for_a_missing_wallet_is_not_found() {
    let mut db = MemStore::new();
    let mut credit = Credit::with_pk(Id::new(), Id::new());
    credit.amount = 5;
    credit.kind = CreditKind::Award.to_string();
    assert_eq!(Err(Error::NotFound), credit.save(&mut db));
}

#[test]
fn save_all_reports_every_failure() {
    let mut db = MemStore::new();
    let uid = Id::new();
    db.execute(Request::CreateWallet { uid });
    let mut good = Credit::with_pk(uid, Id::new());
    good.amount = 3;
    good.kind = CreditKind::Award.to_string();
    let mut lost = Credit::with_pk(Id::new(), Id::new());
    lost.amount = 3;
    let bad = Credit::with_pk(uid, Id::new());
    let mut all = vec![lost, good, bad];
    assert_eq!(
        Err(vec![Error::NotFound, Error::InvalidArgument]),
        Credit::save_all(&mut db, &mut all)
    );
    assert_eq!(3, db.wallet(uid).unwrap().credits);
    let mut none: Vec<Credit> = Vec::new();
    assert_eq!(Ok(()), Credit::save_all(&mut db, &mut none));
}

#[test]
fn award_of_one_creates_the_wallet() {
    let mut db = store_with_system();
    let mac = HMacTag::new([7u8; 32]);
    let uid = Id::new();
    let mut txn = Transaction::with_uid(sys_id());
    txn.prepare(&mut db, &mac, uid, TransactionKind::Award, 1)
        .unwrap();
    txn.commit(&mut db, &mac).unwrap();
    let w = db.wallet(uid).unwrap();
    assert_eq!((1, 1, 0), (w.award, w.sequence, w.credits));
    assert_eq!((0, 0), (w.topup, w.income));
    assert_eq!(txn.id, w.txn);
    w.verify_checksum(&mac).unwrap();
}

#[test]
fn award_then_spend() {
    let mut db = store_with_system();
    let mac = HMacTag::new([7u8; 32]);
    let uid = Id::new();
    let mut award = Transaction::with_uid(sys_id());
    award
        .prepare(&mut db, &mac, uid, TransactionKind::Award, 1000)
        .unwrap();
    award.commit(&mut db, &mac).unwrap();
    let w = db.wallet(uid).unwrap();
    assert_eq!((1000, 1), (w.award, w.sequence));

    let mut credit = Credit::with_pk(uid, award.id);
    credit.kind = CreditKind::Award.to_string();
    credit.amount = 10;
    credit.save(&mut db).unwrap();
    assert_eq!(10, db.wallet(uid).unwrap().credits);

    let system_before = db.wallet(sys_id()).unwrap();
    let mut spend = Transaction::with_uid(uid);
    spend
        .prepare(&mut db, &mac, sys_id(), TransactionKind::Spend, 400)
        .unwrap();
    spend.commit(&mut db, &mac).unwrap();
    let w = db.wallet(uid).unwrap();
    assert_eq!((600, 0, 2), (w.award, w.topup, w.sequence));
    let system_after = db.wallet(sys_id()).unwrap();
    assert_eq!(system_before.income + 400, system_after.income);
    assert_eq!(system_before.balance() + 400, system_after.balance());
}

#[test]
fn subscribe_with_a_second_payee() {
    let mut db = store_with_system();
    let mac = HMacTag::new([7u8; 32]);
    let payer = funded(&mut db, &mac, 1000, 10000);
    let payee = Id::new();
    let sub = Id::new();
    let system_before = db.wallet(sys_id()).unwrap();

    let mut txn = Transaction::with_uid(payer);
    txn.sub_payee = Some(sub);
    txn.prepare(&mut db, &mac, payee, TransactionKind::Subscribe, 200)
        .unwrap();
    assert_eq!((54, 73), (txn.sys_fee, txn.sub_shares));
    txn.commit(&mut db, &mac).unwrap();

    assert_eq!(73, db.wallet(payee).unwrap().income);
    assert_eq!(73, db.wallet(sub).unwrap().income);
    assert_eq!(
        system_before.income + 54,
        db.wallet(sys_id()).unwrap().income
    );
    assert_eq!(800, db.wallet(payer).unwrap().balance());
}

#[test]
fn fee_boundaries() {
    assert_eq!((1, 0), TransactionKind::Sponsor.fee_and_shares(1, 0, true));
    assert_eq!(
        (27, 36),
        TransactionKind::Subscribe.fee_and_shares(100, 10000, true)
    );
    assert_eq!(100 - 27 - 36, 37);
    assert_eq!((0, 0), TransactionKind::Spend.fee_and_shares(100, 0, true));
    assert_eq!((0, 0), TransactionKind::Award.fee_and_shares(100, 0, false));
    assert_eq!((1, 0), TransactionKind::Withdraw.fee_and_shares(1999, 0, true));
    assert_eq!((2, 0), TransactionKind::Withdraw.fee_and_shares(2000, 0, true));
    assert_eq!(
        (2_767_011_611_056_432_742, 3_228_180_212_899_171_532),
        TransactionKind::Sponsor.fee_and_shares(i64::MAX, 0, true)
    );
    assert_eq!((1, 0), TransactionKind::Sponsor.fee_and_shares(0, 0, true));
    assert_eq!((1, -1), TransactionKind::Sponsor.fee_and_shares(-2, 0, true));
}

#[test]
fn spend_to_the_overdraw_limit() {
    let mut wallet = Wallet::with_pk(Id::new());
    wallet.award = 10;
    wallet.topup = 20;
    wallet.income = 30;
    let mut more = wallet.clone();
    assert_eq!(
        Err(Error::InsufficientBalance),
        TransactionKind::Spend.sub_payer_balance(&mut more, 161)
    );
    assert_eq!(60, more.balance());
    TransactionKind::Spend
        .sub_payer_balance(&mut wallet, 160)
        .unwrap();
    assert_eq!((0, -100, 0), (wallet.award, wallet.topup, wallet.income));
}

#[test]
fn cancel_gives_back_as_topup() {
    let mut db = store_with_system();
    let mac = HMacTag::new([7u8; 32]);
    let payer = funded(&mut db, &mac, 600, 110);
    let mut txn = Transaction::with_uid(payer);
    txn.prepare(&mut db, &mac, sys_id(), TransactionKind::Spend, 400)
        .unwrap();
    assert_eq!(200, db.wallet(payer).unwrap().award);
    txn.cancel(&mut db, &mac).unwrap();
    let w = db.wallet(payer).unwrap();
    assert_eq!((200, 400, 0), (w.award, w.topup, w.income));
    assert_eq!(600, w.balance());
    // A second cancelling finds the row cancelled and changes nothing.
    let mut again = db.transaction(txn.uid, txn.id).unwrap();
    assert_eq!(Err(Error::StatusConflict), again.cancel(&mut db, &mac));
    assert_eq!(600, db.wallet(payer).unwrap().balance());
}

#[test]
fn commit_twice_changes_nothing() {
    let mut db = store_with_system();
    let mac = HMacTag::new([7u8; 32]);
    let payer = funded(&mut db, &mac, 600, 110);
    let payee = Id::new();
    let mut txn = Transaction::with_uid(payer);
    txn.prepare(&mut db, &mac, payee, TransactionKind::Sponsor, 100)
        .unwrap();
    let mut copy = txn.clone();
    txn.commit(&mut db, &mac).unwrap();
    let payee_before = db.wallet(payee).unwrap();
    let system_before = db.wallet(sys_id()).unwrap();
    copy.commit(&mut db, &mac).unwrap();
    assert_eq!(3, copy.status);
    let payee_after = db.wallet(payee).unwrap();
    assert_eq!(payee_before.income, payee_after.income);
    assert_eq!(payee_before.sequence, payee_after.sequence);
    assert_eq!(
        system_before.income,
        db.wallet(sys_id()).unwrap().income
    );
    // A committed transaction cannot be cancelled.
    assert_eq!(Err(Error::StatusConflict), txn.cancel(&mut db, &mac));
    assert_eq!(3, db.transaction(txn.uid, txn.id).unwrap().status);
}

#[test]
fn a_tampered_wallet_is_refused() {
    let mut db = store_with_system();
    let mac = HMacTag::new([7u8; 32]);
    let payer = funded(&mut db, &mac, 600, 110);
    let mut w = db.wallet(payer).unwrap();
    assert_eq!(1, w.sequence);
    w.award += 1000;
    db.put_wallet(w);
    let mut txn = Transaction::with_uid(payer);
    assert_eq!(
        Err(Error::ChecksumMismatch),
        txn.prepare(&mut db, &mac, sys_id(), TransactionKind::Spend, 1)
    );
    assert_eq!(
        Err(Error::ChecksumMismatch),
        db.wallet(payer).unwrap().verify_checksum(&mac)
    );
    // A write to the tampered wallet as payee fails and the commit stays open.
    let other = funded(&mut db, &mac, 100, 10);
    let mut pay = Transaction::with_uid(other);
    pay.prepare(&mut db, &mac, payer, TransactionKind::Sponsor, 10)
        .unwrap();
    assert_eq!(
        Err(Error::CommitPartial {
            payee: true,
            system: false,
            sub_payee: false
        }),
        pay.commit(&mut db, &mac)
    );
    assert_eq!(2, db.transaction(pay.uid, pay.id).unwrap().status);
    // A wallet checked under another key does not pass either.
    let other_key = HMacTag::new([8u8; 32]);
    assert!(db
        .wallet(other)
        .unwrap()
        .verify_checksum(&other_key)
        .is_err());
}

#[test]
fn prepare_refusals() {
    let mut db = store_with_system();
    let mac = HMacTag::new([7u8; 32]);
    let poor = funded(&mut db, &mac, 50, 0);
    let mut txn = Transaction::with_uid(poor);
    assert_eq!(
        Err(Error::CreditsRequired),
        txn.prepare(&mut db, &mac, Id::new(), TransactionKind::Sponsor, 10)
    );
    let rich = funded(&mut db, &mac, 50, 5);
    let mut txn = Transaction::with_uid(rich);
    assert_eq!(
        Err(Error::InsufficientBalance),
        txn.prepare(&mut db, &mac, Id::new(), TransactionKind::Sponsor, 51)
    );
    let mut txn = Transaction::with_uid(Id::new());
    assert_eq!(
        Err(Error::NotFound),
        txn.prepare(&mut db, &mac, sys_id(), TransactionKind::Spend, 1)
    );
    // The identifier is taken: the insert does not apply and nothing is written.
    let mut first = Transaction::with_uid(rich);
    let id = Id::new();
    first
        .prepare_as(&mut db, &mac, sys_id(), TransactionKind::Spend, 1, id)
        .unwrap();
    let mut second = Transaction::with_uid(rich);
    assert_eq!(
        Err(Error::PrepareFailed),
        second.prepare_as(&mut db, &mac, sys_id(), TransactionKind::Spend, 1, id)
    );
    assert_eq!(49, db.wallet(rich).unwrap().balance());
}

#[test]
fn tag_is_hmac_sha3_256_truncated() {
    let mac = HMacTag::new([1u8; 32]);
    let mut w = Wallet::with_pk(Id([1, 2, 3, 4, 5, 6, 7, 8, 9, 10, 11, 12]));
    w.sequence = 1;
    w.award = -100;
    w.topup = 5;
    w.income = 7;
    w.txn = Id([13, 14, 15, 16, 17, 18, 19, 20, 21, 22, 23, 24]);
    assert_eq!(vec![22u8, 74, 95, 81, 240, 16, 220, 152], mac.tag64(&w));
    w.credits = 99;
    assert_eq!(vec![22u8, 74, 95, 81, 240, 16, 220, 152], mac.tag64(&w));
    w.checksum = vec![22u8, 74, 95, 81, 240, 16, 220, 152];
    assert_eq!(Ok(()), w.verify_checksum(&mac));
    w.checksum = vec![22u8, 74, 95, 81, 240, 16, 220];
    assert_eq!(Err(Error::ChecksumMismatch), w.verify_checksum(&mac));
    w.checksum = vec![22u8, 74, 95, 81, 240, 16, 220, 153];
    assert_eq!(Err(Error::ChecksumMismatch), w.verify_checksum(&mac));
}

#[test]
fn fresh_identifiers_differ() {
    let a = Id::new();
    let b = Id::new();
    assert_ne!(a, b);
    assert!(!a.is_zero());
    assert!(sys_id().is_zero());
    assert_eq!(Some(a), Id::from_bytes(&a.to_vec()));
    assert_eq!(None, Id::from_bytes(&[1u8, 2, 3]));
}

#[test]
fn listings_come_newest_first_by_pages() {
    let mut db = store_with_system();
    let mac = HMacTag::new([7u8; 32]);
    let payer = funded(&mut db, &mac, 1000, 10);
    let payee = Id::new();
    let mut ids: Vec<Id> = Vec::new();
    for n in 1..=5u8 {
        let mut txn = Transaction::with_uid(payer);
        let id = Id([n, 0, 0, 0, 0, 0, 0, 0, 0, 0, 0, n]);
        let kind = if n % 2 == 0 {
            TransactionKind::Sponsor
        } else {
            TransactionKind::Subscribe
        };
        txn.prepare_as(&mut db, &mac, payee, kind, 10, id).unwrap();
        txn.commit(&mut db, &mac).unwrap();
        ids.push(id);
    }
    let ids_of = |page: &Vec<Transaction>| page.iter().map(|t| t.id).collect::<Vec<Id>>();

    let page = Transaction::list(&db, payer, vec![], 2, None, None).unwrap();
    assert_eq!(vec![ids[4], ids[3]], ids_of(&page));
    let token = walletbase::paging::next_page_token(&ids_of(&page), 2);
    assert_eq!(Some(ids[3]), token);
    let page = Transaction::list(&db, payer, vec![], 2, token, None).unwrap();
    assert_eq!(vec![ids[2], ids[1]], ids_of(&page));
    let page = Transaction::list(&db, payer, vec![], 2, Some(ids[1]), None).unwrap();
    assert_eq!(vec![ids[0]], ids_of(&page));
    assert_eq!(None, walletbase::paging::next_page_token(&ids_of(&page), 2));
    let page = Transaction::list(&db, payer, vec![], 2, Some(ids[0]), None).unwrap();
    assert!(page.is_empty());

    let page =
        Transaction::list(&db, payer, vec![], 10, None, Some(TransactionKind::Sponsor)).unwrap();
    assert_eq!(vec![ids[3], ids[1]], ids_of(&page));
    let page = Transaction::list_by_payee(&db, payee, vec![], 10, None, None).unwrap();
    assert_eq!(5, page.len());
    assert_eq!(ids[4], page[0].id);
    let page = Transaction::list_by_payee(&db, payer, vec![], 10, None, None).unwrap();
    assert_eq!(1, page.len());
    assert_eq!("award", page[0].kind);
    let page = Transaction::list_by_sub_payee(&db, payee, vec![], 10, None, None).unwrap();
    assert!(page.is_empty());
    assert_eq!(
        Some(Error::InvalidArgument),
        Transaction::list(&db, payer, vec!["txn".to_string()], 10, None, None).err()
    );
    let page = Transaction::list(&db, payer, vec!["amount".to_string()], 0, None, None).unwrap();
    assert!(page.is_empty());

    let entries = Credit::list(&db, payer, vec![], 10, None, None).unwrap();
    assert_eq!(1, entries.len());
    assert_eq!("award", entries[0].kind);
    let entries = Credit::list(&db, payer, vec![], 10, None, Some(CreditKind::Income)).unwrap();
    assert!(entries.is_empty());
}

#[test]
fn identifiers_sort_as_numbers() {
    let low = Id([0, 0, 0, 0, 0, 0, 0, 0, 0, 0, 1, 255]);
    let high = Id([0, 0, 0, 0, 0, 0, 0, 0, 0, 0, 2, 0]);
    assert_eq!(511, low.value());
    assert_eq!(512, high.value());
    assert!(low.lt(&high));
    assert!(!high.lt(&low));
    assert!(!low.lt(&low));
    assert_eq!(0, sys_id().value());
    assert_eq!((1u128 << 96) - 1, walletbase::max_id().value());
    assert!(sys_id().lt(&walletbase::min_id()));
}

#[test]
fn single_rows_are_read_and_written_on_condition() {
    let mut db = store_with_system();
    let mac = HMacTag::new([7u8; 32]);
    let uid = Id::new();
    let mut wallet = Wallet::with_pk(uid);
    assert_eq!(Err(Error::NotFound), wallet.get_one(&db));
    wallet.award = 5;
    wallet.next_checksum(&mac, Id::new());
    // The stored sequence must be one below: there is no row yet.
    assert_eq!(Ok(false), wallet.update_balance(&mut db));
    assert_eq!(Ok(true), Wallet::with_pk(uid).save(&mut db));
    assert_eq!(Ok(true), wallet.update_balance(&mut db));
    assert_eq!(Ok(false), wallet.update_balance(&mut db));
    let mut read = Wallet::with_pk(uid);
    read.get_one(&db).unwrap();
    assert_eq!((5, 1, wallet.txn), (read.award, read.sequence, read.txn));
    assert_eq!(wallet.checksum, read.checksum);
    // The credits are not the balance's to write.
    let mut credit = Credit::with_pk(uid, Id::new());
    credit.kind = "award".to_string();
    credit.amount = 4;
    credit.save(&mut db).unwrap();
    read.award = 6;
    read.credits = 1000;
    read.next_checksum(&mac, Id::new());
    assert_eq!(Ok(true), read.update_balance(&mut db));
    let stored = db.wallet(uid).unwrap();
    assert_eq!((6, 2, 4), (stored.award, stored.sequence, stored.credits));

    let mut entry = Credit::with_pk(uid, credit.txn);
    entry.get_one(&db, vec!["amount".to_string()]).unwrap();
    assert_eq!((4, "award"), (entry.amount, entry.kind.as_str()));
    assert_eq!(
        Err(Error::InvalidArgument),
        entry.get_one(&db, vec!["id".to_string()])
    );
    assert_eq!(
        Err(Error::NotFound),
        Credit::with_pk(uid, Id::new()).get_one(&db, vec![])
    );

    let mut txn = Transaction::with_uid(uid);
    txn.prepare(&mut db, &mac, sys_id(), TransactionKind::Spend, 2)
        .unwrap();
    let mut row = Transaction::with_pk(uid, txn.id);
    row.get_one(&db, vec![]).unwrap();
    assert_eq!((1, 2, "spend"), (row.status, row.amount, row.kind.as_str()));
    assert_eq!(
        Err(Error::NotFound),
        Transaction::with_pk(uid, Id::new()).get_one(&db, vec![])
    );
    assert_eq!(
        Err(Error::InvalidArgument),
        row.get_one(&db, vec!["checksum".to_string()])
    );
}
