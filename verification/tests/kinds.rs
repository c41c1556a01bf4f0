use walletbase::{income_fee_rate, sys_id, CreditKind, Error, Id, TransactionKind, Wallet};

#[test]
fn credit_kind_works() {
    assert_eq!("award", CreditKind::Award.as_ref());
    assert_eq!("payout", CreditKind::Payout.as_ref());
    assert_eq!("income", CreditKind::Income.as_ref());

    assert_eq!(CreditKind::Award, CreditKind::from_str("award").unwrap());
    assert_eq!(CreditKind::Payout, CreditKind::from_str("payout").unwrap());
    assert_eq!(CreditKind::Income, CreditKind::from_str("income").unwrap());
}

#[test]
fn income_fee_rate_works() {
    let rate = |credits: i64| income_fee_rate(credits) as f32 / 100f32;
    assert_eq!(0.3f32, rate(-1));
    assert_eq!(0.3f32, rate(0));
    assert_eq!(0.3f32, rate(9999));
    assert_eq!(0.27f32, rate(9999 + 1));
    assert_eq!(0.27f32, rate(99999));
    assert_eq!(0.24f32, rate(99999 + 1));
    assert_eq!(0.24f32, rate(999999));
    assert_eq!(0.21f32, rate(999999 + 1));
    assert_eq!(0.21f32, rate(9999999));
    assert_eq!(0.18f32, rate(9999999 + 1));
    assert_eq!(0.18f32, rate(99999999));
    assert_eq!(0.15f32, rate(99999999 + 1));
    assert_eq!(0.15f32, rate(999999999));
    assert_eq!(0.12f32, rate(999999999 + 1));
    assert_eq!(0.12f32, rate(9999999999));
    assert_eq!(0.09f32, rate(9999999999 + 1));
    assert_eq!(0.09f32, rate(99999999999));
    assert_eq!(0.09f32, rate(99999999999 + 1));
}

#[test]
fn transaction_kind_works() {
    {
        assert_eq!("award", TransactionKind::Award.as_ref());
        assert_eq!("topup", TransactionKind::Topup.as_ref());
        assert_eq!("spend", TransactionKind::Spend.as_ref());
        assert_eq!("sponsor", TransactionKind::Sponsor.as_ref());
        assert_eq!("subscribe", TransactionKind::Subscribe.as_ref());
        assert_eq!("withdraw", TransactionKind::Withdraw.as_ref());
        assert_eq!("refund", TransactionKind::Refund.as_ref());
        assert_eq!(
            TransactionKind::Award,
            TransactionKind::from_str("award").unwrap()
        );
        assert_eq!(
            TransactionKind::Refund,
            TransactionKind::from_str("refund").unwrap()
        );
    }

    let uid = Id::new();
    // check_payer
    {
        assert!(TransactionKind::Award.check_payer(sys_id()).is_ok());
        assert!(TransactionKind::Topup.check_payer(sys_id()).is_ok());

        assert!(TransactionKind::Award.check_payer(uid).is_err());
        assert!(TransactionKind::Topup.check_payer(uid).is_err());

        assert!(TransactionKind::Spend.check_payer(uid).is_ok());
        assert!(TransactionKind::Sponsor.check_payer(uid).is_ok());
        assert!(TransactionKind::Subscribe.check_payer(uid).is_ok());
        assert!(TransactionKind::Withdraw.check_payer(uid).is_ok());
        assert!(TransactionKind::Refund.check_payer(uid).is_ok());

        assert!(TransactionKind::Spend.check_payer(sys_id()).is_err());
        assert!(TransactionKind::Sponsor.check_payer(sys_id()).is_err());
        assert!(TransactionKind::Subscribe.check_payer(sys_id()).is_err());
        assert!(TransactionKind::Withdraw.check_payer(sys_id()).is_err());
        assert!(TransactionKind::Refund.check_payer(sys_id()).is_err());
    }

    // check_payee
    {
        assert!(TransactionKind::Spend.check_payee(sys_id()).is_ok());
        assert!(TransactionKind::Withdraw.check_payee(sys_id()).is_ok());
        assert!(TransactionKind::Refund.check_payee(sys_id()).is_ok());

        assert!(TransactionKind::Spend.check_payee(uid).is_err());
        assert!(TransactionKind::Withdraw.check_payee(uid).is_err());
        assert!(TransactionKind::Refund.check_payee(uid).is_err());

        assert!(TransactionKind::Award.check_payee(uid).is_ok());
        assert!(TransactionKind::Topup.check_payee(uid).is_ok());
        assert!(TransactionKind::Sponsor.check_payee(uid).is_ok());
        assert!(TransactionKind::Subscribe.check_payee(uid).is_ok());

        assert!(TransactionKind::Award.check_payee(sys_id()).is_err());
        assert!(TransactionKind::Topup.check_payee(sys_id()).is_err());
        assert!(TransactionKind::Sponsor.check_payee(sys_id()).is_err());
        assert!(TransactionKind::Subscribe.check_payee(sys_id()).is_err());
    }

    // check_sub_payee
    {
        assert!(TransactionKind::Award.check_sub_payee(uid).is_err());
        assert!(TransactionKind::Topup.check_sub_payee(uid).is_err());
        assert!(TransactionKind::Spend.check_sub_payee(uid).is_err());
        assert!(TransactionKind::Sponsor.check_sub_payee(uid).is_ok());
        assert!(TransactionKind::Subscribe.check_sub_payee(uid).is_ok());
        assert!(TransactionKind::Withdraw.check_sub_payee(uid).is_err());
        assert!(TransactionKind::Refund.check_sub_payee(uid).is_err());
    }

    // sub_payer_balance
    {
        // system wallet
        let mut sys_wallet = Wallet::with_pk(sys_id());
        assert!(TransactionKind::Award
            .sub_payer_balance(&mut sys_wallet, 100)
            .is_ok());
        assert_eq!(-100, sys_wallet.award);
        assert!(TransactionKind::Award
            .sub_payer_balance(&mut sys_wallet, 100)
            .is_ok());
        assert_eq!(-200, sys_wallet.award);
        assert!(TransactionKind::Topup
            .sub_payer_balance(&mut sys_wallet, 100)
            .is_ok());
        assert_eq!(-100, sys_wallet.topup);
        assert!(TransactionKind::Spend
            .sub_payer_balance(&mut sys_wallet, 100)
            .is_err());
        assert_eq!(-300, sys_wallet.balance());

        // user wallet without credits
        let mut wallet = Wallet::with_pk(Id::new());
        wallet.award = 100;
        assert!(TransactionKind::Sponsor
            .sub_payer_balance(&mut wallet, 100)
            .is_err());

        // user wallet with credits
        wallet.credits = 10;
        assert!(TransactionKind::Sponsor
            .sub_payer_balance(&mut wallet, 100)
            .is_ok());
        assert_eq!(0, wallet.balance());
        assert!(TransactionKind::Sponsor
            .sub_payer_balance(&mut wallet, 1000)
            .is_err());

        wallet.award = 100;
        wallet.topup = 100;
        wallet.income = 100;
        assert_eq!(300, wallet.balance());

        assert!(TransactionKind::Refund
            .sub_payer_balance(&mut wallet, 200)
            .is_err());
        assert!(TransactionKind::Withdraw
            .sub_payer_balance(&mut wallet, 200)
            .is_err());

        assert!(TransactionKind::Refund
            .sub_payer_balance(&mut wallet, 50)
            .is_ok());
        assert_eq!(50, wallet.topup);

        assert!(TransactionKind::Withdraw
            .sub_payer_balance(&mut wallet, 50)
            .is_ok());
        assert_eq!(50, wallet.income);

        assert_eq!(200, wallet.balance());
        assert!(TransactionKind::Award
            .sub_payer_balance(&mut wallet, 110)
            .is_err());
        assert!(TransactionKind::Spend
            .sub_payer_balance(&mut wallet, 110)
            .is_ok());
        assert_eq!(90, wallet.balance());
        assert_eq!(40, wallet.topup);
        assert_eq!(50, wallet.income);

        assert!(TransactionKind::Sponsor
            .sub_payer_balance(&mut wallet, 50)
            .is_ok());
        assert_eq!(40, wallet.balance());
        assert_eq!(0, wallet.topup);
        assert_eq!(40, wallet.income);

        assert!(TransactionKind::Refund
            .sub_payer_balance(&mut wallet, 40)
            .is_err());
        assert!(TransactionKind::Withdraw
            .sub_payer_balance(&mut wallet, 50)
            .is_err());
        assert!(TransactionKind::Withdraw
            .sub_payer_balance(&mut wallet, 40)
            .is_ok());
        assert_eq!(0, wallet.balance());

        assert!(TransactionKind::Sponsor
            .sub_payer_balance(&mut wallet, 50)
            .is_err());

        wallet.award = 10;
        wallet.topup = 10;
        wallet.income = 10;
        assert!(TransactionKind::Sponsor
            .sub_payer_balance(&mut wallet, 50)
            .is_err());
        assert!(TransactionKind::Spend
            .sub_payer_balance(&mut wallet, 50)
            .is_ok());
        assert_eq!(-20, wallet.balance());
        assert_eq!(0, wallet.award);
        assert_eq!(-20, wallet.topup);
        assert_eq!(0, wallet.income);

        wallet.award = 20;
        assert!(TransactionKind::Spend
            .sub_payer_balance(&mut wallet, 110)
            .is_err());

        wallet.award = 30;
        assert!(TransactionKind::Subscribe
            .sub_payer_balance(&mut wallet, 110)
            .is_err());
        assert!(TransactionKind::Spend
            .sub_payer_balance(&mut wallet, 110)
            .is_ok());
        assert_eq!(-100, wallet.balance());
        assert_eq!(0, wallet.award);
        assert_eq!(-100, wallet.topup);
        assert_eq!(0, wallet.income);

        wallet.topup = 10;
        assert_eq!(10, wallet.balance());
        assert!(TransactionKind::Spend
            .sub_payer_balance(&mut wallet, 120)
            .is_err());
        assert!(TransactionKind::Spend
            .sub_payer_balance(&mut wallet, 110)
            .is_ok());
        assert_eq!(-100, wallet.balance());
        assert_eq!(0, wallet.award);
        assert_eq!(-100, wallet.topup);
        assert_eq!(0, wallet.income);
    }

    // rollback_payer_balance
    {
        let mut wallet = Wallet::with_pk(Id::new());
        assert!(TransactionKind::Award
            .rollback_payer_balance(&mut wallet, 1)
            .is_ok());
        assert_eq!(1, wallet.award);
        assert!(TransactionKind::Topup
            .rollback_payer_balance(&mut wallet, 1)
            .is_ok());
        assert_eq!(1, wallet.topup);
        assert!(TransactionKind::Refund
            .rollback_payer_balance(&mut wallet, 1)
            .is_ok());
        assert_eq!(2, wallet.topup);
        assert!(TransactionKind::Withdraw
            .rollback_payer_balance(&mut wallet, 1)
            .is_ok());
        assert_eq!(1, wallet.income);

        assert!(TransactionKind::Spend
            .rollback_payer_balance(&mut wallet, 1)
            .is_ok());
        assert_eq!(3, wallet.topup);
        assert!(TransactionKind::Sponsor
            .rollback_payer_balance(&mut wallet, 1)
            .is_ok());
        assert_eq!(4, wallet.topup);
        assert!(TransactionKind::Subscribe
            .rollback_payer_balance(&mut wallet, 1)
            .is_ok());
        assert_eq!(5, wallet.topup);
    }

    // add_payee_balance
    {
        let mut wallet = Wallet::with_pk(Id::new());
        assert!(TransactionKind::Award
            .add_payee_balance(&mut wallet, 1)
            .is_ok());
        assert_eq!(1, wallet.award);
        assert!(TransactionKind::Award
            .add_payee_balance(&mut wallet, 1)
            .is_ok());
        assert_eq!(2, wallet.award);

        assert!(TransactionKind::Topup
            .add_payee_balance(&mut wallet, 1)
            .is_ok());
        assert_eq!(1, wallet.topup);
        assert!(TransactionKind::Refund
            .add_payee_balance(&mut wallet, 1)
            .is_ok());
        assert_eq!(2, wallet.topup);
        assert!(TransactionKind::Withdraw
            .add_payee_balance(&mut wallet, 1)
            .is_ok());
        assert_eq!(3, wallet.topup);

        assert!(TransactionKind::Spend
            .add_payee_balance(&mut wallet, 1)
            .is_ok());
        assert_eq!(1, wallet.income);
        assert!(TransactionKind::Sponsor
            .add_payee_balance(&mut wallet, 1)
            .is_ok());
        assert_eq!(2, wallet.income);
        assert!(TransactionKind::Subscribe
            .add_payee_balance(&mut wallet, 1)
            .is_ok());
        assert_eq!(3, wallet.income);
    }

    // fee_and_shares
    {
        assert_eq!(
            (1i64, 0i64),
            TransactionKind::Withdraw.fee_and_shares(1, 0, false)
        );
        assert_eq!(
            (1i64, 0i64),
            TransactionKind::Withdraw.fee_and_shares(1000, 0, false)
        );
        assert_eq!(
            (10i64, 0i64),
            TransactionKind::Withdraw.fee_and_shares(10000, 10000, false)
        );

        assert_eq!(
            (1i64, 0i64),
            TransactionKind::Sponsor.fee_and_shares(1, 0, false)
        );
        assert_eq!(
            (1i64, 0i64),
            TransactionKind::Sponsor.fee_and_shares(1, 10000, false)
        );
        assert_eq!(
            (30i64, 0i64),
            TransactionKind::Sponsor.fee_and_shares(100, 9999, false)
        );
        assert_eq!(
            (27i64, 0i64),
            TransactionKind::Sponsor.fee_and_shares(100, 10000, false)
        );
        assert_eq!(
            (24i64, 0i64),
            TransactionKind::Sponsor.fee_and_shares(100, 100000, false)
        );
        assert_eq!(
            (15i64, 0i64),
            TransactionKind::Sponsor.fee_and_shares(100, 100000000, false)
        );
        assert_eq!(
            (15i64, 0i64),
            TransactionKind::Sponsor.fee_and_shares(101, 100000000, false)
        );

        assert_eq!(
            (1i64, 0i64),
            TransactionKind::Subscribe.fee_and_shares(1, 0, true)
        );
        assert_eq!(
            (1i64, 0i64),
            TransactionKind::Subscribe.fee_and_shares(1, 10000, true)
        );
        assert_eq!(
            (30i64, 35i64),
            TransactionKind::Sponsor.fee_and_shares(100, 9999, true)
        );
        assert_eq!(
            (27i64, 36i64),
            TransactionKind::Subscribe.fee_and_shares(100, 10000, true)
        );
        assert_eq!(
            (24i64, 38i64),
            TransactionKind::Subscribe.fee_and_shares(100, 100000, true)
        );
        assert_eq!(
            (15i64, 42i64),
            TransactionKind::Subscribe.fee_and_shares(100, 100000000, true)
        );
        assert_eq!(
            (15i64, 43i64),
            TransactionKind::Subscribe.fee_and_shares(101, 100000000, true)
        );
    }
}

#[test]
fn kind_names_older_rows() {
    assert_eq!(
        TransactionKind::Spend,
        TransactionKind::from_str("expenditure").unwrap()
    );
    assert_eq!(CreditKind::Award, CreditKind::from_str("init").unwrap());
    assert_eq!(
        CreditKind::Payout,
        CreditKind::from_str("expenditure").unwrap()
    );
    assert_eq!(Err(Error::InvalidArgument), TransactionKind::from_str("Award"));
    assert_eq!(Err(Error::InvalidArgument), CreditKind::from_str(""));
}
