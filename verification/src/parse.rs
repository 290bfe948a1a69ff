//! Offline envelope parser: reads a decoded synthetic sample into a [`TreasuryEnvelope`].
//!
//! - Input shape: the Fiscal Data envelope, a top-level `_dataset`, `data[]` and
//!   `meta{count, total-count, total-pages}`
//! - Any unknown member fails the whole document (`SemanticallyRejected`)
//! - A repeated identity (`DS01`: dataset + date + account type; `DS05`: dataset + date)
//!   is refused, never silently deduplicated
//! - `_dataset` is an annotation of the synthetic fixtures (real envelopes lack it)
//! - `meta.count` equal to the number of `data` rows is a self-consistency invariant
//!   of the synthetic samples, kept so that the parser fails closed; it is no claim
//!   about the paging semantics of real envelopes

use vstd::prelude::*;
use vstd::string::*;

use crate::error::{outcome, Failure, TreasuryError, TreasuryErrorKind, TreasuryResult};
use crate::json::{
    amount, check_keys, field, first_unknown_key, find_field, key_texts, required_str, required_u64, spec_amount,
    spec_check_keys, spec_required_str, spec_required_u64, JsonValue,
};
use crate::text::{decimal, decimal_text};
use crate::value::datasets::{
    dataset_named, guard_collection_dataset, lemma_dataset_id_roundtrip, spec_guard_collection_dataset,
    spec_is_curve_product, spec_parse_dataset_id, TreasuryDatasetId,
};
use crate::value::record::{
    spec_validate_record, validate_record, CashBalanceView, EnvelopeView, PayloadView, RecordView,
    TreasuryCashBalance, TreasuryDebtToPenny, TreasuryEnvelope, TreasuryEnvelopeMeta,
    TreasuryPayload, TreasuryRecord,
};
use crate::value::{
    lemma_parse_date_injective, lemma_parsed_date_text_len, spec_parse_day, Period, Unit,
};

verus! {

broadcast use vstd::string::group_string_axioms;

/// Members allowed at the top level.
pub const TOP_LEVEL_KEYS: [&'static str; 5] = ["_synthetic", "_note", "_dataset", "data", "meta"];

/// Members allowed in `meta`.
pub const META_KEYS: [&'static str; 3] = ["count", "total-count", "total-pages"];

/// Members allowed in a DS01 row.
pub const DS01_KEYS: [&'static str; 4] = [
    "record_date",
    "account_type",
    "open_today_bal",
    "close_today_bal",
];

/// Members allowed in a DS05 row.
pub const DS05_KEYS: [&'static str; 4] = [
    "record_date",
    "debt_held_public_amt",
    "intragov_hold_amt",
    "tot_pub_debt_out_amt",
];

/// What parsing the `meta` member gives.
pub open spec fn spec_parse_meta(raw: Option<JsonValue>) -> Result<TreasuryEnvelopeMeta, Failure> {
    match raw {
        None => Err((TreasuryErrorKind::Missing, "缺少顶层必需项 meta"@)),
        Some(JsonValue::Object(members)) => match spec_check_keys(members@, key_texts(META_KEYS@), "meta"@) {
            Err(e) => Err(e),
            Ok(_) => match spec_required_u64(members@, "meta"@, "count"@) {
                Err(e) => Err(e),
                Ok(count) => match spec_required_u64(members@, "meta"@, "total-count"@) {
                    Err(e) => Err(e),
                    Ok(total_count) => match spec_required_u64(members@, "meta"@, "total-pages"@) {
                        Err(e) => Err(e),
                        Ok(total_pages) => Ok(TreasuryEnvelopeMeta { count, total_count, total_pages }),
                    },
                },
            },
        },
        Some(_) => Err((TreasuryErrorKind::Invalid, "meta 必须是 JSON 对象"@)),
    }
}

/// The scope name of row `index` in messages.
pub open spec fn row_scope(index: nat) -> Seq<char> {
    "data["@ + decimal(index) + "]"@
}

/// The members allowed in a row of the dataset.
pub open spec fn row_keys(dataset: TreasuryDatasetId) -> Seq<Seq<char>> {
    if dataset == TreasuryDatasetId::Ds01 {
        key_texts(DS01_KEYS@)
    } else {
        key_texts(DS05_KEYS@)
    }
}

/// The record that a row of the dataset becomes.
pub open spec fn row_record(dataset: TreasuryDatasetId, period: Period, payload: PayloadView) -> RecordView {
    RecordView {
        dataset_id: dataset,
        period,
        frequency: dataset.source_frequency(),
        unit: Unit::Unknown,
        revision: None,
        payload,
    }
}

/// What reading the payload members of a DS01 row gives: its identity and its record.
pub open spec fn spec_cash_balance_row(
    members: Seq<(String, JsonValue)>,
    scope: Seq<char>,
    date: Seq<char>,
    period: Period,
) -> Result<(Seq<char>, RecordView), Failure> {
    match spec_required_str(members, scope, "account_type"@) {
        Err(e) => Err(e),
        Ok(account) => match spec_amount(members, scope, "open_today_bal"@) {
            Err(e) => Err(e),
            Ok(open) => match spec_amount(members, scope, "close_today_bal"@) {
                Err(e) => Err(e),
                Ok(close) => Ok(
                    (
                        "DS01"@ + "|"@ + date + "|"@ + account,
                        row_record(
                            TreasuryDatasetId::Ds01,
                            period,
                            PayloadView::CashBalance(
                                CashBalanceView {
                                    account_type: account,
                                    open_today_bal: open,
                                    close_today_bal: close,
                                },
                            ),
                        ),
                    ),
                ),
            },
        },
    }
}

/// What reading the payload members of a DS05 row gives: its identity and its record.
pub open spec fn spec_debt_row(
    members: Seq<(String, JsonValue)>,
    scope: Seq<char>,
    date: Seq<char>,
    period: Period,
) -> Result<(Seq<char>, RecordView), Failure> {
    match spec_amount(members, scope, "debt_held_public_amt"@) {
        Err(e) => Err(e),
        Ok(debt) => match spec_amount(members, scope, "intragov_hold_amt"@) {
            Err(e) => Err(e),
            Ok(intragov) => match spec_amount(members, scope, "tot_pub_debt_out_amt"@) {
                Err(e) => Err(e),
                Ok(total) => Ok(
                    (
                        "DS05"@ + "|"@ + date,
                        row_record(
                            TreasuryDatasetId::Ds05,
                            period,
                            PayloadView::DebtToPenny(
                                TreasuryDebtToPenny {
                                    debt_held_public_amt: debt,
                                    intragov_hold_amt: intragov,
                                    tot_pub_debt_out_amt: total,
                                },
                            ),
                        ),
                    ),
                ),
            },
        },
    }
}

/// What reading row `index` of a document of the dataset gives: the row's identity and
/// its record.
#[verifier::opaque]
pub open spec fn spec_parse_row(dataset: TreasuryDatasetId, index: nat, item: JsonValue) -> Result<
    (Seq<char>, RecordView),
    Failure,
> {
    let scope = row_scope(index);
    match item {
        JsonValue::Object(members) => match spec_check_keys(members@, row_keys(dataset), scope) {
            Err(e) => Err(e),
            Ok(_) => match spec_required_str(members@, scope, "record_date"@) {
                Err(e) => Err(e),
                Ok(date) => match spec_parse_day(date) {
                    Err(e) => Err(e),
                    Ok(period) => if dataset == TreasuryDatasetId::Ds01 {
                        spec_cash_balance_row(members@, scope, date, period)
                    } else {
                        spec_debt_row(members@, scope, date, period)
                    },
                },
            },
        },
        _ => Err((TreasuryErrorKind::Invalid, scope + " 必须是 JSON 对象"@)),
    }
}

/// What reading the first `n` rows gives: their records and identities, in order.
pub open spec fn spec_parse_rows(dataset: TreasuryDatasetId, items: Seq<JsonValue>, n: nat) -> Result<
    (Seq<RecordView>, Seq<Seq<char>>),
    Failure,
>
    decreases n,
{
    if n == 0 {
        Ok((Seq::empty(), Seq::empty()))
    } else {
        match spec_parse_rows(dataset, items, (n - 1) as nat) {
            Err(e) => Err(e),
            Ok((records, seen)) => match spec_parse_row(dataset, (n - 1) as nat, items[n - 1]) {
                Err(e) => Err(e),
                Ok((identity, record)) => if seen.contains(identity) {
                    Err((TreasuryErrorKind::Invalid, "重复身份："@ + identity))
                } else {
                    match spec_validate_record(record) {
                        Err(e) => Err(e),
                        Ok(_) => Ok((records.push(record), seen.push(identity))),
                    }
                },
            },
        }
    }
}

/// What parsing the `data` member and checking it against `meta` gives.
pub open spec fn spec_parse_data(
    dataset: TreasuryDatasetId,
    meta: TreasuryEnvelopeMeta,
    raw: Option<JsonValue>,
) -> Result<EnvelopeView, Failure> {
    match raw {
        None => Err((TreasuryErrorKind::Missing, "缺少顶层必需项 data"@)),
        Some(JsonValue::Array(items)) => match spec_parse_rows(dataset, items@, items@.len()) {
            Err(e) => Err(e),
            Ok((records, _)) => if meta.count != records.len() {
                Err(
                    (
                        TreasuryErrorKind::Invalid,
                        "meta.count 与 data 行数不一致："@ + decimal(meta.count as nat) + " vs "@
                            + decimal(records.len()),
                    ),
                )
            } else {
                Ok(EnvelopeView { records, meta })
            },
        },
        Some(_) => Err((TreasuryErrorKind::Invalid, "data 必须是数组"@)),
    }
}

/// What parsing the members of the top-level object gives.
pub open spec fn spec_parse_members(members: Seq<(String, JsonValue)>) -> Result<EnvelopeView, Failure> {
    match spec_check_keys(members, key_texts(TOP_LEVEL_KEYS@), "顶层"@) {
        Err(e) => Err(e),
        Ok(_) => match spec_required_str(members, "顶层"@, "_dataset"@) {
            Err(e) => Err(e),
            Ok(text) => match spec_parse_dataset_id(text) {
                Err(e) => Err(e),
                Ok(dataset) => match spec_guard_collection_dataset(dataset) {
                    Err(e) => Err(e),
                    Ok(_) => match spec_parse_meta(field(members, "meta"@)) {
                        Err(e) => Err(e),
                        Ok(meta) => spec_parse_data(dataset, meta, field(members, "data"@)),
                    },
                },
            },
        },
    }
}

/// What `parse_treasury_records` gives for a document.
pub open spec fn spec_parse_document(root: JsonValue) -> Result<EnvelopeView, Failure> {
    match root {
        JsonValue::Object(members) => spec_parse_members(members@),
        _ => Err((TreasuryErrorKind::Invalid, "样本顶层必须是 JSON 对象"@)),
    }
}

/// A row result as the contracts see it.
pub open spec fn row_outcome(r: TreasuryResult<(String, TreasuryRecord)>) -> Result<(Seq<char>, RecordView), Failure> {
    match r {
        Ok((identity, record)) => Ok((identity@, record@)),
        Err(e) => Err(e@),
    }
}

/// An envelope result as the contracts see it.
pub open spec fn envelope_outcome(r: TreasuryResult<TreasuryEnvelope>) -> Result<EnvelopeView, Failure> {
    match r {
        Ok(envelope) => Ok(envelope@),
        Err(e) => Err(e@),
    }
}

/// Parses the `meta` member.
fn parse_meta(raw: Option<&JsonValue>) -> (r: TreasuryResult<TreasuryEnvelopeMeta>)
    ensures
        outcome(r) == spec_parse_meta(
            match raw {
                Some(v) => Some(*v),
                None => None,
            },
        ),
{
    let raw = match raw {
        Some(v) => v,
        None => {
            return Err(TreasuryError::Missing(String::from_str("缺少顶层必需项 meta")));
        },
    };
    let members = match raw {
        JsonValue::Object(members) => members,
        _ => {
            return Err(TreasuryError::Invalid(String::from_str("meta 必须是 JSON 对象")));
        },
    };
    check_keys(members, &META_KEYS, "meta")?;
    let count = required_u64(members, "meta", "count")?;
    let total_count = required_u64(members, "meta", "total-count")?;
    let total_pages = required_u64(members, "meta", "total-pages")?;
    Ok(TreasuryEnvelopeMeta { count, total_count, total_pages })
}

/// The scope name of row `index`.
fn row_scope_text(index: usize) -> (r: String)
    ensures
        r@ == row_scope(index as nat),
{
    let mut scope = String::from_str("data[");
    let digits = decimal_text(index as u64);
    scope.append(digits.as_str());
    scope.append("]");
    scope
}

/// Reads one row of a document of the dataset: its identity and its record.
fn parse_row(dataset_id: TreasuryDatasetId, index: usize, item: &JsonValue) -> (r: TreasuryResult<
    (String, TreasuryRecord),
>)
    requires
        dataset_id == TreasuryDatasetId::Ds01 || dataset_id == TreasuryDatasetId::Ds05,
    ensures
        row_outcome(r) == spec_parse_row(dataset_id, index as nat, *item),
{
    reveal(spec_parse_row);
    let scope_text = row_scope_text(index);
    let scope = scope_text.as_str();
    let members = match item {
        JsonValue::Object(members) => members,
        _ => {
            let mut reason = String::from_str(scope);
            reason.append(" 必须是 JSON 对象");
            return Err(TreasuryError::Invalid(reason));
        },
    };
    let allowed: &[&str] = match dataset_id {
        TreasuryDatasetId::Ds01 => &DS01_KEYS,
        _ => &DS05_KEYS,
    };
    check_keys(members, allowed, scope)?;
    let record_date = required_str(members, scope, "record_date")?;
    let period = Period::parse_day(record_date.as_str())?;
    let (identity, payload) = match dataset_id {
        TreasuryDatasetId::Ds01 => {
            let account_type = required_str(members, scope, "account_type")?;
            let open_today_bal = amount(members, scope, "open_today_bal")?;
            let close_today_bal = amount(members, scope, "close_today_bal")?;
            let mut identity = String::from_str(dataset_id.id());
            identity.append("|");
            identity.append(record_date.as_str());
            identity.append("|");
            identity.append(account_type.as_str());
            (
                identity,
                TreasuryPayload::CashBalance(
                    TreasuryCashBalance { account_type, open_today_bal, close_today_bal },
                ),
            )
        },
        _ => {
            let debt_held_public_amt = amount(members, scope, "debt_held_public_amt")?;
            let intragov_hold_amt = amount(members, scope, "intragov_hold_amt")?;
            let tot_pub_debt_out_amt = amount(members, scope, "tot_pub_debt_out_amt")?;
            let mut identity = String::from_str(dataset_id.id());
            identity.append("|");
            identity.append(record_date.as_str());
            (
                identity,
                TreasuryPayload::DebtToPenny(
                    TreasuryDebtToPenny {
                        debt_held_public_amt,
                        intragov_hold_amt,
                        tot_pub_debt_out_amt,
                    },
                ),
            )
        },
    };
    let record = TreasuryRecord {
        dataset_id,
        period,
        frequency: dataset_id.frequency(),
        unit: Unit::Unknown,
        revision: None,
        payload,
    };
    Ok((identity, record))
}

/// Whether `identity` was already seen.
fn seen_before(seen: &Vec<String>, identity: &String) -> (r: bool)
    ensures
        r == seen@.map_values(|s: String| s@).contains(identity@),
{
    let ghost views = seen@.map_values(|s: String| s@);
    let mut i: usize = 0;
    while i < seen.len()
        invariant
            i <= seen@.len(),
            views == seen@.map_values(|s: String| s@),
            forall|j: int| 0 <= j < i ==> seen@[j]@ != identity@,
        decreases seen@.len() - i,
    {
        if seen[i] == *identity {
            assert(views[i as int] == identity@);
            return true;
        }
        i = i + 1;
    }
    assert forall|j: int| 0 <= j < views.len() implies #[trigger] views[j] != identity@ by {
        assert(views[j] == seen@[j]@);
    }
    false
}

/// Once reading the first `i` rows fails, reading more rows fails the same way.
proof fn lemma_rows_error_sticks(dataset: TreasuryDatasetId, items: Seq<JsonValue>, i: nat, n: nat)
    requires
        i <= n,
        spec_parse_rows(dataset, items, i) is Err,
    ensures
        spec_parse_rows(dataset, items, n) == spec_parse_rows(dataset, items, i),
    decreases n - i,
{
    if i < n {
        lemma_rows_error_sticks(dataset, items, i, (n - 1) as nat);
    }
}

/// Reads the `data` member and checks it against `meta`.
fn parse_data(dataset_id: TreasuryDatasetId, meta: TreasuryEnvelopeMeta, raw: Option<&JsonValue>) -> (r:
    TreasuryResult<TreasuryEnvelope>)
    requires
        dataset_id == TreasuryDatasetId::Ds01 || dataset_id == TreasuryDatasetId::Ds05,
    ensures
        envelope_outcome(r) == spec_parse_data(
            dataset_id,
            meta,
            match raw {
                Some(v) => Some(*v),
                None => None,
            },
        ),
{
    let items = match raw {
        Some(v) => v,
        None => {
            return Err(TreasuryError::Missing(String::from_str("缺少顶层必需项 data")));
        },
    };
    let items = match items {
        JsonValue::Array(items) => items,
        _ => {
            return Err(TreasuryError::Invalid(String::from_str("data 必须是数组")));
        },
    };
    let mut records: Vec<TreasuryRecord> = Vec::new();
    let mut seen: Vec<String> = Vec::new();
    let mut index: usize = 0;
    while index < items.len()
        invariant
            dataset_id == TreasuryDatasetId::Ds01 || dataset_id == TreasuryDatasetId::Ds05,
            index <= items@.len(),
            spec_parse_data(
                dataset_id,
                meta,
                match raw {
                    Some(v) => Some(*v),
                    None => None,
                },
            ) == spec_parse_data(dataset_id, meta, Some(JsonValue::Array(*items))),
            spec_parse_rows(dataset_id, items@, index as nat) matches Ok((rs, ids)) && rs
                =~= records@.map_values(|r: TreasuryRecord| r@) && ids =~= seen@.map_values(
                |s: String| s@,
            ),
        decreases items@.len() - index,
    {
        let ghost before = spec_parse_rows(dataset_id, items@, index as nat);
        let row = parse_row(dataset_id, index, &items[index]);
        let (identity, record) = match row {
            Ok(pair) => pair,
            Err(e) => {
                proof {
                    lemma_rows_error_sticks(dataset_id, items@, (index + 1) as nat, items@.len());
                }
                return Err(e);
            },
        };
        if seen_before(&seen, &identity) {
            proof {
                lemma_rows_error_sticks(dataset_id, items@, (index + 1) as nat, items@.len());
            }
            let mut reason = String::from_str("重复身份：");
            reason.append(identity.as_str());
            return Err(TreasuryError::Invalid(reason));
        }
        match validate_record(&record) {
            Ok(_) => {},
            Err(e) => {
                proof {
                    lemma_rows_error_sticks(dataset_id, items@, (index + 1) as nat, items@.len());
                }
                return Err(e);
            },
        }
        let ghost record_view = record@;
        let ghost identity_view = identity@;
        let ghost old_records = records@;
        let ghost old_seen = seen@;
        records.push(record);
        seen.push(identity);
        proof {
            assert(records@.map_values(|r: TreasuryRecord| r@) =~= old_records.map_values(
                |r: TreasuryRecord| r@,
            ).push(record_view));
            assert(seen@.map_values(|s: String| s@) =~= old_seen.map_values(|s: String| s@).push(
                identity_view,
            ));
        }
        index = index + 1;
    }
    assert(items@.len() == index);
    if meta.count != records.len() as u64 {
        let mut reason = String::from_str("meta.count 与 data 行数不一致：");
        let count = decimal_text(meta.count);
        reason.append(count.as_str());
        reason.append(" vs ");
        let rows = decimal_text(records.len() as u64);
        reason.append(rows.as_str());
        return Err(TreasuryError::Invalid(reason));
    }
    Ok(TreasuryEnvelope { records, meta })
}

/// Parses a decoded synthetic sample into a Fiscal Data envelope.
///
/// Errors: a top level that is not an object, a member of the wrong kind, a malformed
/// date, a repeated identity or a `meta.count` that differs from the number of rows give
/// `Invalid`; a missing `_dataset`, `data`, `meta` or required member, or a row without
/// any amount, give `Missing`; an unknown member gives `SemanticallyRejected`; the curve
/// products `DS06` / `DS07` give `RoutedElsewhere`; `DS04` (lossy skeleton map) gives
/// `SemanticallyRejected`; any other dataset outside the collection face gives
/// `NotApplicable`.
pub fn parse_treasury_records(document: &JsonValue) -> (r: TreasuryResult<TreasuryEnvelope>)
    ensures
        envelope_outcome(r) == spec_parse_document(*document),
{
    let members = match document {
        JsonValue::Object(members) => members,
        _ => {
            return Err(TreasuryError::Invalid(String::from_str("样本顶层必须是 JSON 对象")));
        },
    };
    check_keys(members, &TOP_LEVEL_KEYS, "顶层")?;
    let text = required_str(members, "顶层", "_dataset")?;
    let dataset_id = TreasuryDatasetId::parse_id(text.as_str())?;
    guard_collection_dataset(dataset_id)?;
    let meta = parse_meta(find_field(members, "meta"))?;
    parse_data(dataset_id, meta, find_field(members, "data"))
}

/// Every row read from a document of the dataset is a record of that dataset whose
/// identity starts with the dataset's registered form and the row's date text.
proof fn lemma_row_shape(dataset: TreasuryDatasetId, index: nat, item: JsonValue)
    requires
        dataset == TreasuryDatasetId::Ds01 || dataset == TreasuryDatasetId::Ds05,
    ensures
        spec_parse_row(dataset, index, item) matches Ok((identity, record)) ==> {
            &&& record.dataset_id == dataset
            &&& record.unit == Unit::Unknown
            &&& record.revision is None
            &&& record.frequency == dataset.source_frequency()
            &&& (dataset == TreasuryDatasetId::Ds01 <==> record.payload is CashBalance)
            &&& exists|date: Seq<char>| {
                &&& #[trigger] spec_parse_day(date) == Ok::<Period, Failure>(record.period)
                &&& identity == identity_of(record, date)
            }
        },
{
    reveal(spec_parse_row);
    if let Ok((identity, record)) = spec_parse_row(dataset, index, item) {
        if let JsonValue::Object(members) = item {
            let date = spec_required_str(members@, row_scope(index), "record_date"@)->Ok_0;
            assert(spec_parse_day(date) == Ok::<Period, Failure>(record.period));
        }
    }
}

/// What the first `n` rows of an accepted document hold.
proof fn lemma_rows_accepted(dataset: TreasuryDatasetId, items: Seq<JsonValue>, n: nat)
    requires
        dataset == TreasuryDatasetId::Ds01 || dataset == TreasuryDatasetId::Ds05,
        n <= items.len(),
    ensures
        spec_parse_rows(dataset, items, n) matches Ok((records, seen)) ==> {
            &&& records.len() == n
            &&& seen.len() == n
            &&& seen.no_duplicates()
            &&& forall|i: int| 0 <= i < n ==> {
                &&& spec_parse_row(dataset, i as nat, items[i]) == Ok::<(Seq<char>, RecordView), Failure>(
                    (seen[i], records[i]),
                )
                &&& spec_validate_record(#[trigger] records[i]) is Ok
                &&& records[i].dataset_id == dataset
                &&& records[i].unit == Unit::Unknown
                &&& records[i].revision is None
                &&& records[i].frequency == dataset.source_frequency()
                &&& (dataset == TreasuryDatasetId::Ds01 <==> records[i].payload is CashBalance)
                &&& exists|date: Seq<char>| {
                    &&& #[trigger] spec_parse_day(date) == Ok::<Period, Failure>(records[i].period)
                    &&& seen[i] == identity_of(records[i], date)
                }
            }
        },
    decreases n,
{
    if n > 0 {
        lemma_rows_accepted(dataset, items, (n - 1) as nat);
        lemma_row_shape(dataset, (n - 1) as nat, items[n - 1]);
        if let Ok((records, seen)) = spec_parse_rows(dataset, items, n) {
            let (prev_records, prev_seen) = spec_parse_rows(dataset, items, (n - 1) as nat)->Ok_0;
            assert(records == prev_records.push(records[n - 1]));
            assert(seen == prev_seen.push(seen[n - 1]));
            assert forall|i: int| 0 <= i < n implies {
                &&& spec_parse_row(dataset, i as nat, items[i]) == Ok::<(Seq<char>, RecordView), Failure>(
                    (seen[i], records[i]),
                )
                &&& spec_validate_record(#[trigger] records[i]) is Ok
                &&& records[i].dataset_id == dataset
                &&& records[i].unit == Unit::Unknown
                &&& records[i].revision is None
                &&& records[i].frequency == dataset.source_frequency()
                &&& (dataset == TreasuryDatasetId::Ds01 <==> records[i].payload is CashBalance)
                &&& exists|date: Seq<char>| {
                    &&& #[trigger] spec_parse_day(date) == Ok::<Period, Failure>(records[i].period)
                    &&& seen[i] == identity_of(records[i], date)
                }
            } by {
                if i < n - 1 {
                    assert(records[i] == prev_records[i]);
                    assert(seen[i] == prev_seen[i]);
                }
            }
            assert forall|i: int, j: int| 0 <= i < seen.len() && 0 <= j < seen.len() && i != j implies seen[i]
                != seen[j] by {
                if i < n - 1 && j < n - 1 {
                    assert(seen[i] == prev_seen[i] && seen[j] == prev_seen[j]);
                } else if i == n - 1 {
                    assert(seen[j] == prev_seen[j]);
                    assert(!prev_seen.contains(seen[i]));
                } else {
                    assert(seen[i] == prev_seen[i]);
                    assert(!prev_seen.contains(seen[j]));
                }
            }
        }
    }
}

/// Law: an accepted document is a collection-face dataset whose records, one per `data`
/// row, in row order, and as many as `meta.count` says, each pass `validate_record`, are
/// all of the dataset that `_dataset` names with an undeclared unit, no revision and the
/// dataset's frequency, and carry pairwise distinct identities (the dataset and date,
/// plus the account type for `DS01`).
pub proof fn lemma_accepted_document(root: JsonValue)
    ensures
        spec_parse_document(root) matches Ok(envelope) ==> {
            &&& envelope.records.len() == envelope.meta.count
            &&& root matches JsonValue::Object(members) && field(members@, "data"@) matches Some(
                JsonValue::Array(items),
            ) && items@.len() == envelope.records.len()
            &&& forall|i: int| 0 <= i < envelope.records.len() ==> {
                &&& spec_validate_record(#[trigger] envelope.records[i]) is Ok
                &&& envelope.records[i].dataset_id == envelope.records[0].dataset_id
                &&& (envelope.records[i].dataset_id == TreasuryDatasetId::Ds01
                    || envelope.records[i].dataset_id == TreasuryDatasetId::Ds05)
                &&& envelope.records[i].unit == Unit::Unknown
                &&& envelope.records[i].revision is None
                &&& envelope.records[i].frequency == envelope.records[i].dataset_id.source_frequency()
            }
            &&& forall|i: int, j: int| 0 <= i < j < envelope.records.len() ==> record_identity_differs(
                #[trigger] envelope.records[i],
                #[trigger] envelope.records[j],
            )
            &&& rows_in_order(root, envelope.records)
        },
{
    if let Ok(envelope) = spec_parse_document(root) {
        if let JsonValue::Object(members) = root {
            let text = spec_required_str(members@, "顶层"@, "_dataset"@)->Ok_0;
            let dataset = spec_parse_dataset_id(text)->Ok_0;
            assert(dataset == TreasuryDatasetId::Ds01 || dataset == TreasuryDatasetId::Ds05);
            if let Some(JsonValue::Array(items)) = field(members@, "data"@) {
                lemma_rows_accepted(dataset, items@, items@.len());
                let (records, seen) = spec_parse_rows(dataset, items@, items@.len())->Ok_0;
                assert(envelope.records == records);
                assert forall|i: int, j: int| 0 <= i < j < envelope.records.len() implies record_identity_differs(
                    #[trigger] envelope.records[i],
                    #[trigger] envelope.records[j],
                ) by {
                    assert(seen[i] != seen[j]);
                    let di = choose|date: Seq<char>| {
                        &&& #[trigger] spec_parse_day(date) == Ok::<Period, Failure>(records[i].period)
                        &&& seen[i] == identity_of(records[i], date)
                    };
                    let dj = choose|date: Seq<char>| {
                        &&& #[trigger] spec_parse_day(date) == Ok::<Period, Failure>(records[j].period)
                        &&& seen[j] == identity_of(records[j], date)
                    };
                    if records[i].period == records[j].period {
                        lemma_parse_date_injective(di, dj);
                        if dataset == TreasuryDatasetId::Ds01 {
                            if let (PayloadView::CashBalance(ri), PayloadView::CashBalance(rj)) = (records[i].payload, records[j].payload) {
                                if ri.account_type == rj.account_type {
                                    assert(seen[i] =~= seen[j]);
                                }
                            }
                        } else {
                            assert(seen[i] =~= seen[j]);
                        }
                    }
                }
            }
        }
    }
}

/// The records follow the rows of `data[]` one for one and in order, each being what its
/// row reads as, and each belongs to the dataset that `_dataset` names.
pub open spec fn rows_in_order(root: JsonValue, records: Seq<RecordView>) -> bool {
    &&& root matches JsonValue::Object(members)
    &&& spec_required_str(members@, "顶层"@, "_dataset"@) matches Ok(t)
    &&& spec_parse_dataset_id(t) matches Ok(dataset)
    &&& field(members@, "data"@) matches Some(JsonValue::Array(items))
    &&& items@.len() == records.len()
    &&& forall|i: int| 0 <= i < records.len() ==> {
        &&& (#[trigger] records[i]).dataset_id == dataset
        &&& spec_parse_row(dataset, i as nat, items@[i]) matches Ok((_, record)) && record == records[i]
    }
}

/// The identity of a record read from a row with the given date text: the dataset and
/// the date, plus the account type for a `DS01` row.
pub open spec fn identity_of(record: RecordView, date: Seq<char>) -> Seq<char> {
    match record.payload {
        PayloadView::CashBalance(row) => record.dataset_id.id_text() + "|"@ + date + "|"@ + row.account_type,
        PayloadView::DebtToPenny(_) => record.dataset_id.id_text() + "|"@ + date,
    }
}

/// Two records of one document differ in their identity: another period, or, for
/// `DS01`, another account type.
pub open spec fn record_identity_differs(a: RecordView, b: RecordView) -> bool {
    ||| a.period != b.period
    ||| (a.payload matches PayloadView::CashBalance(x) && b.payload matches PayloadView::CashBalance(y)
        && x.account_type != y.account_type)
}

/// Law: an unknown top-level member fails the whole document as `SemanticallyRejected`,
/// whatever else it holds.
pub proof fn lemma_unknown_member_rejects(members: Seq<(String, JsonValue)>)
    requires
        first_unknown_key(members, key_texts(TOP_LEVEL_KEYS@)) is Some,
    ensures
        spec_parse_members(members) matches Err(e) && e.0 == TreasuryErrorKind::SemanticallyRejected,
{
}

/// Law: a curve product named in `_dataset` of an otherwise well-formed top level is
/// routed away (`RoutedElsewhere`), never read as observations.
pub proof fn lemma_curve_document_routed(members: Seq<(String, JsonValue)>, t: Seq<char>, d: TreasuryDatasetId)
    requires
        first_unknown_key(members, key_texts(TOP_LEVEL_KEYS@)) is None,
        spec_required_str(members, "顶层"@, "_dataset"@) == Ok::<Seq<char>, Failure>(t),
        dataset_named(t) == Some(d),
        spec_is_curve_product(d),
    ensures
        spec_parse_members(members) matches Err(e) && e.0 == TreasuryErrorKind::RoutedElsewhere,
{
}

/// Law: an unknown member in a row fails the whole document's rows as
/// `SemanticallyRejected`, whatever the rows after it hold.
pub proof fn lemma_unknown_row_member_rejects(dataset: TreasuryDatasetId, items: Seq<JsonValue>, i: nat)
    requires
        i < items.len(),
        spec_parse_rows(dataset, items, i) is Ok,
        items[i as int] matches JsonValue::Object(members) && first_unknown_key(members@, row_keys(dataset)) is Some,
    ensures
        spec_parse_rows(dataset, items, items.len()) matches Err(e) && e.0 == TreasuryErrorKind::SemanticallyRejected,
{
    reveal(spec_parse_row);
    lemma_rows_error_sticks(dataset, items, i + 1, items.len());
}

/// Two rows that read with the same identity are records of the same day and, for `DS01`,
/// of the same account type.
proof fn lemma_identity_separates(
    dataset: TreasuryDatasetId,
    i: nat,
    item_i: JsonValue,
    j: nat,
    item_j: JsonValue,
)
    requires
        dataset == TreasuryDatasetId::Ds01 || dataset == TreasuryDatasetId::Ds05,
        spec_parse_row(dataset, i, item_i) is Ok,
        spec_parse_row(dataset, j, item_j) is Ok,
        spec_parse_row(dataset, i, item_i)->Ok_0.0 == spec_parse_row(dataset, j, item_j)->Ok_0.0,
    ensures
        !record_identity_differs(
            spec_parse_row(dataset, i, item_i)->Ok_0.1,
            spec_parse_row(dataset, j, item_j)->Ok_0.1,
        ),
{
    lemma_row_shape(dataset, i, item_i);
    lemma_row_shape(dataset, j, item_j);
    let (id_i, ri) = spec_parse_row(dataset, i, item_i)->Ok_0;
    let (id_j, rj) = spec_parse_row(dataset, j, item_j)->Ok_0;
    let di = choose|date: Seq<char>| {
        &&& #[trigger] spec_parse_day(date) == Ok::<Period, Failure>(ri.period)
        &&& id_i == identity_of(ri, date)
    };
    let dj = choose|date: Seq<char>| {
        &&& #[trigger] spec_parse_day(date) == Ok::<Period, Failure>(rj.period)
        &&& id_j == identity_of(rj, date)
    };
    lemma_parsed_date_text_len(di);
    lemma_parsed_date_text_len(dj);
    reveal_strlit("DS01");
    reveal_strlit("DS05");
    reveal_strlit("|");
    if dataset == TreasuryDatasetId::Ds01 {
        if let (PayloadView::CashBalance(x), PayloadView::CashBalance(y)) = (ri.payload, rj.payload) {
            assert(id_i.subrange(5, 15) =~= di);
            assert(id_j.subrange(5, 15) =~= dj);
            assert(id_i.subrange(16, id_i.len() as int) =~= x.account_type);
            assert(id_j.subrange(16, id_j.len() as int) =~= y.account_type);
        }
    } else {
        assert(id_i.subrange(5, 15) =~= di);
        assert(id_j.subrange(5, 15) =~= dj);
    }
}

/// The record that row `i` of `items` reads as, in a document of the dataset.
pub open spec fn read_row(dataset: TreasuryDatasetId, items: Seq<JsonValue>, i: int) -> RecordView {
    spec_parse_row(dataset, i as nat, items[i])->Ok_0.1
}

/// The first `n` rows, each of which reads and validates and no two of which share a day
/// (and, for `DS01`, an account type), are all accepted, one record per row and in order.
proof fn lemma_distinct_rows_accepted(dataset: TreasuryDatasetId, items: Seq<JsonValue>, n: nat)
    requires
        dataset == TreasuryDatasetId::Ds01 || dataset == TreasuryDatasetId::Ds05,
        n <= items.len(),
        forall|i: int| 0 <= i < n ==> #[trigger] spec_parse_row(dataset, i as nat, items[i]) is Ok,
        forall|i: int| 0 <= i < n ==> spec_validate_record(#[trigger] read_row(dataset, items, i)) is Ok,
        forall|i: int, j: int| 0 <= i < j < n ==> record_identity_differs(
            #[trigger] read_row(dataset, items, i),
            #[trigger] read_row(dataset, items, j),
        ),
    ensures
        spec_parse_rows(dataset, items, n) matches Ok((records, _)) && records == Seq::new(
            n,
            |i: int| read_row(dataset, items, i),
        ),
    decreases n,
{
    if n > 0 {
        let m = (n - 1) as nat;
        lemma_distinct_rows_accepted(dataset, items, m);
        lemma_rows_accepted(dataset, items, m);
        let (records, seen) = spec_parse_rows(dataset, items, m)->Ok_0;
        assert(spec_parse_row(dataset, m, items[m as int]) is Ok);
        let (identity, record) = spec_parse_row(dataset, m, items[m as int])->Ok_0;
        assert(record == read_row(dataset, items, m as int));
        assert(spec_validate_record(read_row(dataset, items, m as int)) is Ok);
        if seen.contains(identity) {
            let k = choose|k: int| 0 <= k < seen.len() && seen[k] == identity;
            assert(spec_validate_record(records[k]) is Ok);
            assert(spec_parse_row(dataset, k as nat, items[k]) == Ok::<(Seq<char>, RecordView), Failure>(
                (seen[k], records[k]),
            ));
            lemma_identity_separates(dataset, k as nat, items[k], m, items[m as int]);
            assert(record_identity_differs(read_row(dataset, items, k), read_row(dataset, items, m as int)));
            assert(false);
        }
        assert(records.push(record) =~= Seq::new(n, |i: int| read_row(dataset, items, i)));
    }
}

/// Law: a document is refused as a repeat only when two of its rows share an identity.
/// When the top level holds only known members, `_dataset` names `DS01` or `DS05`,
/// `meta` reads, every row of the `data` array reads and validates, no two rows share a
/// day (and, for `DS01`, an account type), and `meta.count` is the number of rows, the
/// document is accepted with one record per row, in row order.
pub proof fn lemma_distinct_document_accepted(
    members: Seq<(String, JsonValue)>,
    dataset: TreasuryDatasetId,
    meta: TreasuryEnvelopeMeta,
    data: Vec<JsonValue>,
)
    requires
        first_unknown_key(members, key_texts(TOP_LEVEL_KEYS@)) is None,
        dataset == TreasuryDatasetId::Ds01 || dataset == TreasuryDatasetId::Ds05,
        spec_required_str(members, "顶层"@, "_dataset"@) == Ok::<Seq<char>, Failure>(dataset.id_text()),
        spec_parse_meta(field(members, "meta"@)) == Ok::<TreasuryEnvelopeMeta, Failure>(meta),
        field(members, "data"@) == Some(JsonValue::Array(data)),
        forall|i: int| 0 <= i < data@.len() ==> #[trigger] spec_parse_row(dataset, i as nat, data@[i]) is Ok,
        forall|i: int| 0 <= i < data@.len() ==> spec_validate_record(#[trigger] read_row(dataset, data@, i)) is Ok,
        forall|i: int, j: int| 0 <= i < j < data@.len() ==> record_identity_differs(
            #[trigger] read_row(dataset, data@, i),
            #[trigger] read_row(dataset, data@, j),
        ),
        meta.count == data@.len(),
    ensures
        spec_parse_members(members) == Ok::<EnvelopeView, Failure>(
            EnvelopeView { records: Seq::new(data@.len(), |i: int| read_row(dataset, data@, i)), meta },
        ),
{
    lemma_dataset_id_roundtrip(dataset, dataset.id_text());
    lemma_distinct_rows_accepted(dataset, data@, data@.len());
}

} // verus!
