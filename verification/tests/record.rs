use treasuryx::value::record::check_amounts;
use treasuryx::{
    validate_record, Date, Frequency, Period, TreasuryAmount, TreasuryCashBalance,
    TreasuryDatasetId, TreasuryDebtToPenny, TreasuryErrorKind, TreasuryMissingReason,
    TreasuryPayload, TreasuryRecord, Unit,
};

fn amount(value: f64) -> TreasuryAmount {
    TreasuryAmount::Present(value.to_bits())
}

fn ds01_record() -> TreasuryRecord {
    TreasuryRecord {
        dataset_id: TreasuryDatasetId::Ds01,
        period: Period::Day(Date {
            year: 2026,
            month: 8,
            day: 18,
        }),
        frequency: Frequency::Daily,
        unit: Unit::Unknown,
        revision: None,
        payload: TreasuryPayload::CashBalance(TreasuryCashBalance {
            account_type: "Federal Reserve Account".into(),
            open_today_bal: amount(830_000.0),
            close_today_bal: amount(825_500.0),
        }),
    }
}

fn ds05_record() -> TreasuryRecord {
    TreasuryRecord {
        dataset_id: TreasuryDatasetId::Ds05,
        period: Period::Day(Date {
            year: 2026,
            month: 8,
            day: 18,
        }),
        frequency: Frequency::Daily,
        unit: Unit::Unknown,
        revision: None,
        payload: TreasuryPayload::DebtToPenny(TreasuryDebtToPenny {
            debt_held_public_amt: amount(29_000_000_000_000.0),
            intragov_hold_amt: amount(7_500_000_000_000.0),
            tot_pub_debt_out_amt: amount(36_500_000_000_000.0),
        }),
    }
}

#[test]
fn validate_accepts_both_collection_face_datasets() {
    assert!(validate_record(&ds01_record()).is_ok());
    assert!(validate_record(&ds05_record()).is_ok());
}

#[test]
fn validate_rejects_payload_dataset_mismatch() {
    let mut record = ds01_record();
    record.payload = ds05_record().payload;
    assert_eq!(
        validate_record(&record).expect_err("载荷不匹配").kind(),
        TreasuryErrorKind::Invalid
    );
}

#[test]
fn validate_rejects_curve_and_non_face_datasets() {
    let mut curve = ds01_record();
    curve.dataset_id = TreasuryDatasetId::Ds06;
    assert_eq!(
        validate_record(&curve).expect_err("曲线").kind(),
        TreasuryErrorKind::RoutedElsewhere
    );

    let mut lossy = ds01_record();
    lossy.dataset_id = TreasuryDatasetId::Ds04;
    assert_eq!(
        validate_record(&lossy).expect_err("lossy").kind(),
        TreasuryErrorKind::SemanticallyRejected
    );

    let mut outside = ds01_record();
    outside.dataset_id = TreasuryDatasetId::Ds08;
    outside.frequency = Frequency::Monthly;
    assert_eq!(
        validate_record(&outside).expect_err("采集面外").kind(),
        TreasuryErrorKind::NotApplicable
    );
}

#[test]
fn validate_rejects_non_finite_fake_revision_and_blank_account() {
    let mut nan = ds05_record();
    nan.payload = TreasuryPayload::DebtToPenny(TreasuryDebtToPenny {
        debt_held_public_amt: amount(f64::NAN),
        intragov_hold_amt: TreasuryAmount::Missing(TreasuryMissingReason::SourceOmitted),
        tot_pub_debt_out_amt: TreasuryAmount::Missing(TreasuryMissingReason::SourceOmitted),
    });
    assert!(validate_record(&nan).is_err());

    let mut fake_revision = ds01_record();
    fake_revision.revision = Some("1".into());
    assert!(validate_record(&fake_revision).is_err());

    let mut blank = ds01_record();
    blank.payload = TreasuryPayload::CashBalance(TreasuryCashBalance {
        account_type: "  ".into(),
        open_today_bal: amount(1.0),
        close_today_bal: amount(1.0),
    });
    assert_eq!(
        validate_record(&blank).expect_err("账户类型空白").kind(),
        TreasuryErrorKind::Missing
    );
}

#[test]
fn all_missing_amounts_is_a_named_missing_not_zero() {
    let mut record = ds05_record();
    record.payload = TreasuryPayload::DebtToPenny(TreasuryDebtToPenny {
        debt_held_public_amt: TreasuryAmount::Missing(TreasuryMissingReason::ExplicitNull),
        intragov_hold_amt: TreasuryAmount::Missing(TreasuryMissingReason::SourceOmitted),
        tot_pub_debt_out_amt: TreasuryAmount::Missing(TreasuryMissingReason::ExplicitNull),
    });
    assert_eq!(
        validate_record(&record).expect_err("无可用金额").kind(),
        TreasuryErrorKind::Missing
    );
    assert_eq!(
        TreasuryAmount::Missing(TreasuryMissingReason::ExplicitNull).present(),
        None
    );
    assert!(TreasuryAmount::Missing(TreasuryMissingReason::SourceOmitted).is_missing());
}

#[test]
fn validation_rechecks_public_period_dates() {
    for date in [
        Date {
            year: 2026,
            month: 2,
            day: 30,
        },
        Date {
            year: 2026,
            month: 0,
            day: 1,
        },
        Date {
            year: 2026,
            month: 12,
            day: 0,
        },
    ] {
        let mut value = ds01_record();
        value.period = Period::Day(date);
        assert!(validate_record(&value).is_err());
    }
    for period in [
        Period::Month {
            year: 2026,
            month: 2,
        },
        Period::Quarter {
            year: 2026,
            quarter: 1,
        },
        Period::Year(2026),
        Period::Event {
            date: Date::new(2026, 2, 1).unwrap(),
        },
    ] {
        let mut value = ds01_record();
        value.period = period;
        assert!(validate_record(&value).is_err());
    }
    let mut value = ds01_record();
    value.period = Period::Day(Date::new(2024, 2, 29).unwrap());
    assert!(validate_record(&value).is_ok());
}

#[test]
fn validation_reasons_are_exact() {
    let mut wrong_unit = ds05_record();
    wrong_unit.unit = Unit::BillionsOfUsd;
    assert_eq!(
        validate_record(&wrong_unit).expect_err("单位").reason(),
        "DS01 / DS05 的源侧单位未在清单声明，记录单位必须为 Unknown：DS05"
    );
    let mut wrong_period = ds01_record();
    wrong_period.period = Period::Year(2026);
    assert_eq!(
        validate_record(&wrong_period).expect_err("期间").reason(),
        "本域记录的业务期间必须是单日：DS01"
    );
    let mut wrong_frequency = ds05_record();
    wrong_frequency.frequency = Frequency::Weekly;
    assert_eq!(
        validate_record(&wrong_frequency).expect_err("频率").reason(),
        "频率与数据集不符：DS05"
    );
    let mut revision = ds05_record();
    revision.revision = Some("r".into());
    assert_eq!(
        validate_record(&revision).expect_err("修订").reason(),
        "清单未声明官方 revision 面，修订标识不得伪造：DS05"
    );
    let mut mismatch = ds05_record();
    mismatch.payload = ds01_record().payload;
    assert_eq!(
        validate_record(&mismatch).expect_err("载荷").reason(),
        "载荷与数据集不匹配：DS05"
    );
    let mut infinite = ds01_record();
    infinite.payload = TreasuryPayload::CashBalance(TreasuryCashBalance {
        account_type: "x".into(),
        open_today_bal: amount(1.0),
        close_today_bal: amount(f64::INFINITY),
    });
    let error = validate_record(&infinite).expect_err("无穷");
    assert_eq!(error.kind(), TreasuryErrorKind::Invalid);
    assert_eq!(error.reason(), "DS01 的金额必须是有限值");
    let mut none = ds01_record();
    none.payload = TreasuryPayload::CashBalance(TreasuryCashBalance {
        account_type: "x".into(),
        open_today_bal: TreasuryAmount::Missing(TreasuryMissingReason::SourceOmitted),
        close_today_bal: TreasuryAmount::Missing(TreasuryMissingReason::ExplicitNull),
    });
    assert_eq!(
        validate_record(&none).expect_err("全缺").reason(),
        "DS01 的记录没有任何可用金额"
    );
}

#[test]
fn amount_slot_readers() {
    assert_eq!(amount(-0.0).present(), Some((-0.0f64).to_bits()));
    assert_eq!(amount(f64::MAX).present(), Some(f64::MAX.to_bits()));
    assert!(!amount(0.0).is_missing());
    let mut one_present = ds05_record();
    one_present.payload = TreasuryPayload::DebtToPenny(TreasuryDebtToPenny {
        debt_held_public_amt: TreasuryAmount::Missing(TreasuryMissingReason::SourceOmitted),
        intragov_hold_amt: amount(f64::MIN_POSITIVE),
        tot_pub_debt_out_amt: TreasuryAmount::Missing(TreasuryMissingReason::ExplicitNull),
    });
    assert!(validate_record(&one_present).is_ok(), "一个可用金额即可");
}

#[test]
fn amount_equality_follows_the_numbers() {
    assert_eq!(amount(0.0), amount(-0.0), "两个零相等");
    assert_eq!(amount(825_500.0), amount(825_500.0));
    assert_ne!(amount(1.0), amount(2.0));
    assert_ne!(amount(f64::NAN), amount(f64::NAN), "NaN 不等于自身");
    assert_ne!(
        amount(0.0),
        TreasuryAmount::Missing(TreasuryMissingReason::SourceOmitted)
    );
    assert_eq!(
        TreasuryAmount::Missing(TreasuryMissingReason::ExplicitNull),
        TreasuryAmount::Missing(TreasuryMissingReason::ExplicitNull)
    );
    assert_ne!(
        TreasuryAmount::Missing(TreasuryMissingReason::ExplicitNull),
        TreasuryAmount::Missing(TreasuryMissingReason::SourceOmitted)
    );
}

#[test]
fn amount_check_outcomes() {
    assert!(check_amounts("DS05", &[amount(1.0)]).is_ok());
    let empty = check_amounts("DS05", &[]).expect_err("空列表");
    assert_eq!(empty.kind(), TreasuryErrorKind::Missing);
    assert_eq!(empty.reason(), "DS05 的记录没有任何可用金额");
    let nan = check_amounts(
        "DS01",
        &[TreasuryAmount::Missing(TreasuryMissingReason::SourceOmitted), amount(f64::INFINITY)],
    )
    .expect_err("非有限");
    assert_eq!(nan.kind(), TreasuryErrorKind::Invalid);
    assert_eq!(nan.reason(), "DS01 的金额必须是有限值");
}
