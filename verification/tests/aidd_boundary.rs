
use treasuryx::{
    JsonNumber, JsonText, JsonValue,
    authorize_treasury, guard_collection_dataset, guard_curve_product, guard_ny_fed,
    guard_write_authority, is_curve_product, parse_treasury_records, unit_for_validation_series,
    validate_record, Date, FredValidationSeries, Frequency, NyFedDatasetId, Period, TreasuryAmount,
    TreasuryAuthorization, TreasuryAuthorizationEvidence, TreasuryDatasetId, TreasuryErrorKind,
    TreasuryMissingReason, TreasuryPayload, TreasuryRecord, TreasuryScope, Unit, DECISION_ID,
    FD_VALIDATION_SERIES, NY_FED_DATASETS,
};

/// Decoded form of a `serde_json` value, with the numeric readings the parser uses.
fn to_model(value: &serde_json::Value) -> JsonValue {
    match value {
        serde_json::Value::Null => JsonValue::Null,
        serde_json::Value::Bool(b) => JsonValue::Bool(*b),
        serde_json::Value::Number(n) => JsonValue::Number(JsonNumber {
            unsigned: n.as_u64(),
            float_bits: n.as_f64().expect("finite JSON number").to_bits(),
        }),
        serde_json::Value::String(s) => JsonValue::Text(JsonText {
            text: s.clone(),
            float_bits: s.parse::<f64>().ok().map(f64::to_bits),
        }),
        serde_json::Value::Array(items) => JsonValue::Array(items.iter().map(to_model).collect()),
        serde_json::Value::Object(map) => JsonValue::Object(
            map.iter()
                .map(|(k, v)| (k.clone(), to_model(v)))
                .collect(),
        ),
    }
}

/// Parses a JSON text: decoding, then the library's envelope parser.
fn parse(input: &str) -> treasuryx::TreasuryResult<treasuryx::TreasuryEnvelope> {
    let root: serde_json::Value = serde_json::from_str(input).map_err(|error| {
        treasuryx::TreasuryError::Invalid(format!("样本不是合法 JSON：{error}"))
    })?;
    parse_treasury_records(&to_model(&root))
}

/// A present amount of the given binary64 value.
fn amount_of(value: f64) -> TreasuryAmount {
    TreasuryAmount::Present(value.to_bits())
}

/// Synthetic DS01 envelope (numbers invented for the tests; not evidence of anything).
const DS01_FIXTURE: &str = r#"{
  "_synthetic": true,
  "_note": "合成样本：自拟数值，不是真实源数据，不构成任何证据",
  "_dataset": "DS01",
  "data": [
    {"record_date": "2026-08-18", "account_type": "Federal Reserve Account", "open_today_bal": "830000", "close_today_bal": 825500},
    {"record_date": "2026-08-18", "account_type": "Operating Cash Balance", "open_today_bal": null, "close_today_bal": "780000"}
  ],
  "meta": {"count": 2, "total-count": "16538", "total-pages": 166}
}"#;

/// Synthetic DS05 envelope (numbers invented for the tests; not evidence of anything).
const DS05_FIXTURE: &str = r#"{
  "_synthetic": true,
  "_note": "合成样本：自拟数值，不是真实源数据，不构成任何证据",
  "_dataset": "DS05",
  "data": [
    {"record_date": "2026-08-18", "debt_held_public_amt": "29000000000000.0", "intragov_hold_amt": 7500000000000.0, "tot_pub_debt_out_amt": 36500000000000.0}
  ],
  "meta": {"count": 1, "total-count": 1, "total-pages": 1}
}"#;

/// Synthetic envelope of a curve product.
const CURVE_FIXTURE: &str = r#"{
  "_synthetic": true,
  "_note": "合成样本：曲线产品，必须路由 yieldx",
  "_dataset": "DS06",
  "data": [],
  "meta": {"count": 0, "total-count": 0, "total-pages": 0}
}"#;


/// 边界：曲线产品在三处入口都必须被拒。
#[test]
fn curve_products_are_rejected_at_every_entry() {
    for curve in [TreasuryDatasetId::Ds06, TreasuryDatasetId::Ds07] {
        assert!(is_curve_product(curve));
        assert_eq!(
            TreasuryDatasetId::parse_id(curve.id())
                .expect_err("parse_id")
                .kind(),
            TreasuryErrorKind::RoutedElsewhere
        );
        assert_eq!(
            guard_curve_product(curve).expect_err("守卫").kind(),
            TreasuryErrorKind::RoutedElsewhere
        );
        assert_eq!(
            guard_collection_dataset(curve)
                .expect_err("采集守卫")
                .kind(),
            TreasuryErrorKind::RoutedElsewhere
        );
    }
    // 曲线符号（`^TNX` 类的 10Y 收益率）不属于本域的任何数据集 ID。
    assert!(TreasuryDatasetId::parse_id("DGS10").is_err());
}

/// 边界：DS04 经采集守卫与解析入口都必须被拒，且不在采集常量内。
#[test]
fn ds04_is_rejected_through_guards_and_parser() {
    assert_eq!(
        guard_collection_dataset(TreasuryDatasetId::Ds04)
            .expect_err("采集守卫")
            .kind(),
        TreasuryErrorKind::SemanticallyRejected
    );
    let sample =
        r#"{"_dataset":"DS04","data":[],"meta":{"count":0,"total-count":0,"total-pages":0}}"#;
    assert_eq!(
        parse(sample).expect_err("解析入口").kind(),
        TreasuryErrorKind::SemanticallyRejected
    );
    // DS04 的载荷即使结构正确也不得通过校验。
    let mut record = base_ds05();
    record.dataset_id = TreasuryDatasetId::Ds04;
    assert!(validate_record(&record).is_err());
}

/// 边界：权威键写入拒绝覆盖全部四个校验序列，且 `series_id` 是精确身份。
#[test]
fn write_authority_rejection_covers_every_validation_series() {
    let ids: Vec<&str> = FD_VALIDATION_SERIES.iter().map(|s| s.series_id()).collect();
    assert_eq!(ids.len(), 4);
    for series_id in ids {
        assert_eq!(
            guard_write_authority(series_id)
                .expect_err("越权写入")
                .kind(),
            TreasuryErrorKind::WriteAuthorityDenied,
            "{series_id}"
        );
    }
    // 非校验序列不受本守卫约束（本库不主张对它们的主权）。
    assert!(guard_write_authority("SOFR").is_ok());
    assert!(guard_write_authority("EFFR").is_ok());
}

/// 边界：`meta.count` 与行数不一致、meta 缺字段或形状非法都必须拒绝。
#[test]
fn envelope_self_consistency_is_enforced() {
    let mismatch = r#"{"_dataset":"DS05","data":[{"record_date":"2026-08-18",
        "tot_pub_debt_out_amt":1.0}],"meta":{"count":5,"total-count":5,"total-pages":1}}"#;
    assert!(parse(mismatch).is_err());

    let meta_missing = r#"{"_dataset":"DS05","data":[],"meta":{"count":0,"total-count":0}}"#;
    assert_eq!(
        parse(meta_missing)
            .expect_err("meta 缺字段")
            .kind(),
        TreasuryErrorKind::Missing
    );

    let meta_not_object = r#"{"_dataset":"DS05","data":[],"meta":[]}"#;
    assert!(parse(meta_not_object).is_err());

    let meta_negative = r#"{"_dataset":"DS05","data":[],"meta":{"count":-1,"total-count":0,
        "total-pages":0}}"#;
    assert!(parse(meta_negative).is_err());
}

/// 边界：金额的 JSON 数字与数值字符串等价；非数值字符串与布尔值拒绝。
#[test]
fn amount_accepts_numbers_and_numeric_strings_only() {
    let mixed = r#"{"_dataset":"DS05","data":[{"record_date":"2026-08-18",
        "debt_held_public_amt":"29000000000000.0","intragov_hold_amt":7500000000000.0,
        "tot_pub_debt_out_amt":"36500000000000.0"}],
        "meta":{"count":1,"total-count":1,"total-pages":1}}"#;
    let envelope = parse(mixed).expect("数值字符串可解析");
    assert_eq!(
        envelope.records[0].payload,
        TreasuryPayload::DebtToPenny(treasuryx::TreasuryDebtToPenny {
            debt_held_public_amt: amount_of(29_000_000_000_000.0),
            intragov_hold_amt: amount_of(7_500_000_000_000.0),
            tot_pub_debt_out_amt: amount_of(36_500_000_000_000.0),
        })
    );

    for bad in ["\"abc\"", "true", "[]"] {
        let sample = format!(
            r#"{{"_dataset":"DS05","data":[{{"record_date":"2026-08-18",
            "tot_pub_debt_out_amt":{bad}}}],"meta":{{"count":1,"total-count":1,"total-pages":1}}}}"#
        );
        assert!(parse(&sample).is_err(), "{bad} 必须被拒绝");
    }
}

/// 边界：全缺金额报 `Missing`；缺省与 `null` 是两种具名原因。
#[test]
fn all_missing_amounts_are_named_not_zero() {
    let sample = r#"{"_dataset":"DS05","data":[{"record_date":"2026-08-18",
        "debt_held_public_amt":null,"intragov_hold_amt":null,"tot_pub_debt_out_amt":null}],
        "meta":{"count":1,"total-count":1,"total-pages":1}}"#;
    assert_eq!(
        parse(sample)
            .expect_err("无可用金额")
            .kind(),
        TreasuryErrorKind::Missing
    );

    let omitted = r#"{"_dataset":"DS05","data":[{"record_date":"2026-08-18"}],
        "meta":{"count":1,"total-count":1,"total-pages":1}}"#;
    assert_eq!(
        parse(omitted).expect_err("缺字段").kind(),
        TreasuryErrorKind::Missing
    );
    assert_ne!(
        TreasuryAmount::Missing(TreasuryMissingReason::SourceOmitted),
        TreasuryAmount::Missing(TreasuryMissingReason::ExplicitNull),
        "两种缺失原因不得混同"
    );
}

/// 边界：授权证据纯空白与 live 请求一律 `Denied`。
#[test]
fn blank_evidence_and_live_are_denied() {
    let evidence = TreasuryAuthorizationEvidence::new(DECISION_ID, "ZoneCNH", "treasury_offline");
    for blank in ["", " ", "　"] {
        let blank_scope = TreasuryAuthorizationEvidence::new(DECISION_ID, "ZoneCNH", blank);
        assert!(matches!(
            authorize_treasury(TreasuryScope::OfflineFixtureOnly, Some(&blank_scope)),
            TreasuryAuthorization::Denied { .. }
        ));
    }
    match authorize_treasury(TreasuryScope::LiveCollection, Some(&evidence)) {
        TreasuryAuthorization::Denied { reason } => assert!(reason.contains("另批")),
        other => panic!("live 必须拒绝：{other:?}"),
    }
    // NY Fed 在任何数据集上都保持 NO-GO。
    for dataset_id in NY_FED_DATASETS {
        assert!(guard_ny_fed(dataset_id).is_err());
    }
}

/// 边界：Billions 与 Millions 不得混同；未登记单位的序列记 `Unknown`。
#[test]
fn unit_risk_is_never_silently_converted() {
    assert_eq!(
        unit_for_validation_series(FredValidationSeries::Fd03),
        Unit::BillionsOfUsd
    );
    assert_eq!(
        unit_for_validation_series(FredValidationSeries::Fd01),
        Unit::MillionsOfUsd
    );
    assert_ne!(
        unit_for_validation_series(FredValidationSeries::Fd03),
        unit_for_validation_series(FredValidationSeries::Fd01)
    );
    assert_eq!(
        unit_for_validation_series(FredValidationSeries::Fd04),
        Unit::Unknown,
        "WRESBAL 未登记单位，不得推断"
    );
    // 记录层单位必须是 Unknown（清单未声明 DS01 / DS05 的源侧单位）。
    let mut wrong_unit = base_ds05();
    wrong_unit.unit = Unit::MillionsOfUsd;
    assert!(validate_record(&wrong_unit).is_err());
}

/// 构造一条合法的 DS05 记录。
fn base_ds05() -> TreasuryRecord {
    TreasuryRecord {
        dataset_id: TreasuryDatasetId::Ds05,
        period: Period::Day(Date {
            year: 2026,
            month: 8,
            day: 18,
        }),
        frequency: Frequency::Daily,
        unit: Unit::Unknown,
        revision: None,
        payload: TreasuryPayload::DebtToPenny(treasuryx::TreasuryDebtToPenny {
            debt_held_public_amt: amount_of(1.0),
            intragov_hold_amt: amount_of(1.0),
            tot_pub_debt_out_amt: amount_of(2.0),
        }),
    }
}

/// 边界：NY Fed 数据集 ID 只能解析为三个固定值（供上面的用例复用）。
#[test]
fn ny_fed_ids_are_a_closed_set() {
    for (text, expected) in [
        ("FR01", NyFedDatasetId::Fr01),
        ("FR02", NyFedDatasetId::Fr02),
        ("FR03", NyFedDatasetId::Fr03),
    ] {
        assert_eq!(NyFedDatasetId::parse_id(text).expect("合法 ID"), expected);
    }
    assert!(NyFedDatasetId::parse_id("FR04").is_err());
}
