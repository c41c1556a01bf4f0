use walletbase::cancel::CancelMachine;
use walletbase::commit::CommitMachine;
use walletbase::credit_save::CreditMachine;
use walletbase::prepare::{PrepareMachine, PreparePhase};
use walletbase::task::{TaskPhase, WalletTask};
use walletbase::{
    sys_id, Credit, Error, HMacTag, Id, MemStore, Reply, Request, Transaction, TransactionKind,
    Wallet,
};

fn store_with_system() -> MemStore {
    let mut db = MemStore::new();
    db.execute(Request::CreateWallet { uid: sys_id() });
    db
}

fn funded(db: &mut MemStore, mac: &HMacTag, amount: i64, credits: i64) -> Id {
    let uid = Id::new();
    let mut txn = Transaction::with_uid(sys_id());
    txn.prepare(db, mac, uid, TransactionKind::Award, amount)
        .unwrap();
    txn.commit(db, mac).unwrap();
    let mut credit = Credit::with_pk(uid, txn.id);
    credit.kind = "award".to_string();
    credit.amount = credits;
    credit.save(db).unwrap();
    uid
}

/// Answers from the store, but the writes to the balance of `loser` never apply.
fn answer(db: &mut MemStore, request: Request, loser: Id) -> Reply {
    match &request {
        Request::UpdateBalance { wallet, .. } if wallet.uid == loser => Reply::Applied(false),
        _ => db.execute(request),
    }
}

#[test]
fn wallet_task_retries_five_times() {
    let mut db = store_with_system();
    let mac = HMacTag::new([5u8; 32]);
    let uid = Id::new();
    let (mut task, mut request) = WalletTask::start(uid, Id::new(), 1, 2, 3, true);
    let mut writes = 0;
    let mut creates = 0;
    while let Some(req) = request {
        match &req {
            Request::UpdateBalance { wallet, .. } => {
                writes += 1;
                assert_eq!((1, 2, 3, 1), (wallet.award, wallet.topup, wallet.income, wallet.sequence));
            }
            Request::CreateWallet { .. } => creates += 1,
            _ => {}
        }
        let reply = answer(&mut db, req, uid);
        request = task.step(reply, &mac);
    }
    assert_eq!((5, 1, 4), (writes, creates, task.attempts));
    assert!(matches!(task.phase, TaskPhase::Failed(Error::Contention)));
    assert_eq!(0, db.wallet(uid).unwrap().balance());

    let (mut task, mut request) = WalletTask::start(uid, Id::new(), 1, 2, 3, false);
    while let Some(req) = request {
        let reply = db.execute(req);
        request = task.step(reply, &mac);
    }
    assert!(matches!(task.phase, TaskPhase::Succeeded));
    assert_eq!(6, db.wallet(uid).unwrap().balance());

    let (mut task, _) = WalletTask::start(Id::new(), Id::new(), 1, 0, 0, false);
    assert!(task.step(Reply::NotFound, &mac).is_none());
    assert!(matches!(task.phase, TaskPhase::Failed(Error::NotFound)));
    let (mut task, _) = WalletTask::start(uid, Id::new(), i64::MAX, 0, 0, false);
    assert!(task.step(db.execute(Request::GetWallet { uid }), &mac).is_none());
    assert!(matches!(task.phase, TaskPhase::Failed(Error::Overflow)));
    let (mut task, _) = WalletTask::start(uid, Id::new(), 1, 0, 0, false);
    assert!(task.step(Reply::Failed, &mac).is_none());
    assert!(matches!(task.phase, TaskPhase::Failed(Error::StoreUnavailable)));
}

#[test]
fn prepare_deletes_the_draft_when_the_payer_write_is_lost() {
    let mut db = store_with_system();
    let mac = HMacTag::new([5u8; 32]);
    let payer = funded(&mut db, &mac, 100, 1);
    let id = Id::new();
    let (mut m, mut request) = PrepareMachine::start(
        Transaction::with_uid(payer),
        sys_id(),
        TransactionKind::Spend,
        30,
        id,
    );
    let mut deleted = false;
    while let Some(req) = request {
        if matches!(req, Request::DeleteTransaction { .. }) {
            assert!(db.transaction(payer, id).is_some());
            deleted = true;
        }
        let reply = answer(&mut db, req, payer);
        request = m.step(reply, &mac);
    }
    assert!(deleted);
    assert_eq!(Err(Error::PrepareFailed), m.outcome());
    assert!(db.transaction(payer, id).is_none());
    assert_eq!(100, db.wallet(payer).unwrap().balance());

    let (mut m, _) = PrepareMachine::start(
        Transaction::with_uid(payer),
        sys_id(),
        TransactionKind::Spend,
        30,
        Id::new(),
    );
    assert!(m.step(Reply::Failed, &mac).is_none());
    assert_eq!(Err(Error::StoreUnavailable), m.outcome());
    assert!(matches!(m.phase, PreparePhase::Failed(Error::StoreUnavailable)));
}

#[test]
fn cancel_that_loses_every_race_is_stuck() {
    let mut db = store_with_system();
    let mac = HMacTag::new([5u8; 32]);
    let payer = funded(&mut db, &mac, 100, 1);
    let mut txn = Transaction::with_uid(payer);
    txn.prepare(&mut db, &mac, sys_id(), TransactionKind::Spend, 30)
        .unwrap();
    let (mut m, mut request) = CancelMachine::start(txn.clone());
    while let Some(req) = request {
        let reply = answer(&mut db, req, payer);
        request = m.step(reply, &mac);
    }
    assert_eq!(Err(Error::CancelStuck), m.outcome());
    assert_eq!(-1, m.txn.status);
    assert_eq!(-1, db.transaction(payer, txn.id).unwrap().status);
    assert_eq!(70, db.wallet(payer).unwrap().balance());
    // A second cancelling finds the row cancelling and gives no money back.
    let mut again = db.transaction(payer, txn.id).unwrap();
    assert_eq!(Err(Error::StatusConflict), again.cancel(&mut db, &mac));
    let mut other = txn.clone();
    assert_eq!(Ok(()), other.cancel(&mut db, &mac));
    assert_eq!(-1, other.status);
    assert_eq!(70, db.wallet(payer).unwrap().balance());
}

#[test]
fn commit_that_loses_the_fee_write_stays_open() {
    let mut db = store_with_system();
    let mac = HMacTag::new([5u8; 32]);
    let payer = funded(&mut db, &mac, 100, 1);
    let payee = Id::new();
    let system_before = db.wallet(sys_id()).unwrap();
    let mut txn = Transaction::with_uid(payer);
    txn.prepare(&mut db, &mac, payee, TransactionKind::Sponsor, 10)
        .unwrap();
    assert_eq!((3, 0), (txn.sys_fee, txn.sub_shares));

    let (mut m, mut request) = CommitMachine::start(txn.clone());
    while let Some(req) = request {
        let reply = answer(&mut db, req, sys_id());
        request = m.step(reply, &mac);
    }
    assert_eq!(
        Err(Error::CommitPartial {
            payee: false,
            system: true,
            sub_payee: false
        }),
        m.outcome()
    );
    assert_eq!(2, db.transaction(payer, txn.id).unwrap().status);
    assert_eq!(7, db.wallet(payee).unwrap().income);
    assert_eq!(system_before.income, db.wallet(sys_id()).unwrap().income);

    // Committing again finds the row committing: it reports the conflict
    // and credits nobody a second time.
    let mut again = db.transaction(payer, txn.id).unwrap();
    assert_eq!(Err(Error::StatusConflict), again.commit(&mut db, &mac));
    assert_eq!(2, again.status);
    assert_eq!(7, db.wallet(payee).unwrap().income);
    assert_eq!(1, db.wallet(payee).unwrap().sequence);
}

#[test]
fn credit_counter_that_loses_every_race_gives_up() {
    let mut db = MemStore::new();
    let uid = Id::new();
    Wallet::with_pk(uid).save(&mut db).unwrap();
    let mut credit = Credit::with_pk(uid, Id::new());
    credit.kind = "award".to_string();
    credit.amount = 5;
    let (mut m, mut request) = CreditMachine::start(credit.clone());
    let mut bumps = 0;
    while let Some(req) = request {
        let reply = match req {
            Request::UpdateCredits { credits, expected, .. } => {
                assert_eq!((5, 0), (credits, expected));
                bumps += 1;
                Reply::Applied(false)
            }
            other => db.execute(other),
        };
        request = m.step(reply);
    }
    assert_eq!(5, bumps);
    assert_eq!(Err(Error::Contention), m.outcome());
    assert!(db.credit(uid, credit.txn).is_some());
    assert_eq!(0, db.wallet(uid).unwrap().credits);

    let mut huge = Wallet::with_pk(Id::new());
    huge.credits = i64::MAX;
    huge.save(&mut db).unwrap();
    let mut more = Credit::with_pk(huge.uid, Id::new());
    more.amount = 1;
    assert_eq!(Err(Error::Overflow), more.save(&mut db));
}

#[test]
fn balances_out_of_range_are_refused() {
    let mut wallet = Wallet::with_pk(sys_id());
    wallet.award = i64::MIN + 5;
    assert_eq!(
        Err(Error::Overflow),
        TransactionKind::Award.sub_payer_balance(&mut wallet, 6)
    );
    assert_eq!(i64::MIN + 5, wallet.award);
    assert_eq!(Ok(()), TransactionKind::Award.sub_payer_balance(&mut wallet, 5));
    assert_eq!(i64::MIN, wallet.award);
    let mut wallet = Wallet::with_pk(Id::new());
    wallet.topup = i64::MAX;
    assert_eq!(
        Err(Error::Overflow),
        TransactionKind::Spend.rollback_payer_balance(&mut wallet, 1)
    );
    assert_eq!(
        Err(Error::Overflow),
        TransactionKind::Refund.add_payee_balance(&mut wallet, 1)
    );
    assert_eq!(Ok(()), TransactionKind::Award.add_payee_balance(&mut wallet, 1));
    assert_eq!(None, wallet.checked_balance());
    wallet.topup = -1;
    assert_eq!(Some(0), wallet.checked_balance());
}

#[test]
fn a_committed_row_is_found_committed_whatever_its_numbers() {
    let mut db = store_with_system();
    let mac = HMacTag::new([5u8; 32]);
    let mut row = Transaction::with_pk(Id::new(), Id::new());
    row.payee = sys_id();
    row.kind = "spend".to_string();
    row.amount = i64::MIN;
    row.sys_fee = i64::MAX;
    row.status = 3;
    assert!(matches!(
        db.execute(Request::InsertTransaction { txn: row.clone() }),
        Reply::Applied(true)
    ));
    let system = db.wallet(sys_id()).unwrap();
    let mut again = row.clone();
    again.status = 1;
    assert_eq!(Ok(()), again.commit(&mut db, &mac));
    assert_eq!(3, again.status);
    assert_eq!(system.sequence, db.wallet(sys_id()).unwrap().sequence);

    // The same numbers on a prepared row: the row is moved, then given up.
    let mut open = Transaction::with_pk(Id::new(), Id::new());
    open.payee = sys_id();
    open.kind = "spend".to_string();
    open.amount = i64::MIN;
    open.sys_fee = i64::MAX;
    open.status = 1;
    db.execute(Request::InsertTransaction { txn: open.clone() });
    assert_eq!(Err(Error::Overflow), open.commit(&mut db, &mac));
    assert_eq!(2, db.transaction(open.uid, open.id).unwrap().status);
    assert_eq!(system.sequence, db.wallet(sys_id()).unwrap().sequence);
}
