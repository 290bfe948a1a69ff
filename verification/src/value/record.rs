//! Record value objects and the record completeness check.

use vstd::prelude::*;
use vstd::string::*;

use crate::error::{outcome, Failure, TreasuryError, TreasuryErrorKind, TreasuryResult};
use crate::text::{blank, is_blank};
use crate::value::datasets::{guard_collection_dataset, spec_guard_collection_dataset, TreasuryDatasetId};
use crate::value::{is_valid_date, lemma_new_date_exact, spec_new_date, Date, Frequency, Period, Unit};

verus! {

broadcast use vstd::string::group_string_axioms;

/// Named reason for a missing amount. A missing amount is never silently turned into 0.
#[non_exhaustive]
#[derive(Debug, Clone, Copy, PartialEq, Eq, Hash, Structural)]
pub enum TreasuryMissingReason {
    /// The field is absent from the source record.
    SourceOmitted,
    /// The field is an explicit `null` in the source record.
    ExplicitNull,
}

/// An amount slot.
///
/// A present amount is an IEEE 754 binary64 number, held by its bit pattern
/// (the value `f64::to_bits` gives; `f64::from_bits` turns it back).
///
/// Two amounts compare as their numbers do: `0.0` equals `-0.0`, and a NaN equals
/// nothing, not even itself.
#[non_exhaustive]
#[derive(Debug, Clone, Copy)]
pub enum TreasuryAmount {
    /// A value, as the bit pattern of a binary64 number.
    Present(u64),
    /// Missing, with its named reason.
    Missing(TreasuryMissingReason),
}

/// A binary64 bit pattern is finite unless its exponent field is all ones
/// (the infinities and the NaNs).
pub open spec fn is_finite_bits(bits: u64) -> bool {
    (bits >> 52u64) & 0x7ffu64 != 0x7ffu64
}

/// A binary64 bit pattern is a NaN when its exponent field is all ones and its
/// fraction is not zero.
pub open spec fn is_nan_bits(bits: u64) -> bool {
    (bits >> 52u64) & 0x7ffu64 == 0x7ffu64 && bits & 0xf_ffff_ffff_ffffu64 != 0
}

/// A binary64 bit pattern is a zero (`0.0` or `-0.0`) when all bits but the sign are zero.
pub open spec fn is_zero_bits(bits: u64) -> bool {
    bits & 0x7fff_ffff_ffff_ffffu64 == 0
}

/// IEEE 754 equality of two binary64 numbers given by their bit patterns: no NaN is
/// equal to anything, the two zeros are equal, and otherwise equal numbers have equal bits.
pub open spec fn float_bits_eq(a: u64, b: u64) -> bool {
    !is_nan_bits(a) && !is_nan_bits(b) && (a == b || (is_zero_bits(a) && is_zero_bits(b)))
}

/// Equality of two amount slots: present numbers compare as numbers, missing slots by
/// their reasons, and a present slot never equals a missing one.
pub open spec fn amount_eq(a: TreasuryAmount, b: TreasuryAmount) -> bool {
    match (a, b) {
        (TreasuryAmount::Present(x), TreasuryAmount::Present(y)) => float_bits_eq(x, y),
        (TreasuryAmount::Missing(x), TreasuryAmount::Missing(y)) => x == y,
        _ => false,
    }
}

impl PartialEq for TreasuryAmount {
    fn eq(&self, other: &Self) -> (r: bool) {
        match (self, other) {
            (TreasuryAmount::Present(x), TreasuryAmount::Present(y)) => {
                let x_nan = (*x >> 52u64) & 0x7ffu64 == 0x7ffu64 && *x & 0xf_ffff_ffff_ffffu64 != 0;
                let y_nan = (*y >> 52u64) & 0x7ffu64 == 0x7ffu64 && *y & 0xf_ffff_ffff_ffffu64 != 0;
                let both_zero = *x & 0x7fff_ffff_ffff_ffffu64 == 0 && *y & 0x7fff_ffff_ffff_ffffu64
                    == 0;
                !x_nan && !y_nan && (*x == *y || both_zero)
            },
            (TreasuryAmount::Missing(x), TreasuryAmount::Missing(y)) => *x == *y,
            _ => false,
        }
    }
}

impl vstd::std_specs::cmp::PartialEqSpecImpl for TreasuryAmount {
    open spec fn obeys_eq_spec() -> bool {
        true
    }

    open spec fn eq_spec(&self, other: &TreasuryAmount) -> bool {
        amount_eq(*self, *other)
    }
}

impl TreasuryAmount {
    /// The value of the slot, if present.
    pub open spec fn value(self) -> Option<u64> {
        match self {
            TreasuryAmount::Present(bits) => Some(bits),
            TreasuryAmount::Missing(_) => None,
        }
    }

    /// The value; a missing amount gives `None`, never 0.
    pub fn present(&self) -> (r: Option<u64>)
        ensures
            r == self.value(),
    {
        match self {
            TreasuryAmount::Present(bits) => Some(*bits),
            TreasuryAmount::Missing(_) => None,
        }
    }

    /// Whether the amount is missing.
    pub fn is_missing(&self) -> (r: bool)
        ensures
            r == (self is Missing),
    {
        match self {
            TreasuryAmount::Present(_) => false,
            TreasuryAmount::Missing(_) => true,
        }
    }
}

/// A DS01 row: DTS operating cash balance (TGA).
#[derive(Debug, Clone, PartialEq)]
pub struct TreasuryCashBalance {
    /// Source field `account_type`.
    pub account_type: String,
    /// Source field `open_today_bal`.
    pub open_today_bal: TreasuryAmount,
    /// Source field `close_today_bal`.
    pub close_today_bal: TreasuryAmount,
}

/// A DS05 row: Debt to the Penny.
#[derive(Debug, Clone, Copy, PartialEq)]
pub struct TreasuryDebtToPenny {
    /// Source field `debt_held_public_amt`.
    pub debt_held_public_amt: TreasuryAmount,
    /// Source field `intragov_hold_amt`.
    pub intragov_hold_amt: TreasuryAmount,
    /// Source field `tot_pub_debt_out_amt`.
    pub tot_pub_debt_out_amt: TreasuryAmount,
}

/// Dataset-specific payload: only the collection face (`DS01` / `DS05`).
#[non_exhaustive]
#[derive(Debug, Clone, PartialEq)]
pub enum TreasuryPayload {
    /// DS01 DTS operating cash balance.
    CashBalance(TreasuryCashBalance),
    /// DS05 Debt to the Penny.
    DebtToPenny(TreasuryDebtToPenny),
}

/// One source record (a source fact, with no derived metric).
#[derive(Debug, Clone, PartialEq)]
pub struct TreasuryRecord {
    /// Dataset ID.
    pub dataset_id: TreasuryDatasetId,
    /// Business period (source field `record_date`, as a single day).
    pub period: Period,
    /// Source frequency.
    pub frequency: Frequency,
    /// Source unit (not declared for `DS01` / `DS05`, hence always `Unit::Unknown`).
    pub unit: Unit,
    /// Revision marker: no official revision face is declared, so always `None`.
    pub revision: Option<String>,
    /// Dataset-specific payload.
    pub payload: TreasuryPayload,
}

/// The `meta` block of a Fiscal Data envelope.
#[derive(Debug, Clone, Copy, PartialEq, Eq, Structural)]
pub struct TreasuryEnvelopeMeta {
    /// `meta.count`.
    pub count: u64,
    /// `meta.total-count`.
    pub total_count: u64,
    /// `meta.total-pages`.
    pub total_pages: u64,
}

/// Offline parse result: `data[]` and `meta{count, total-count, total-pages}`.
#[derive(Debug, Clone, PartialEq)]
pub struct TreasuryEnvelope {
    /// The parsed `data[]`.
    pub records: Vec<TreasuryRecord>,
    /// Envelope metadata.
    pub meta: TreasuryEnvelopeMeta,
}

/// A DS01 row as the contracts see it.
pub struct CashBalanceView {
    /// `account_type`.
    pub account_type: Seq<char>,
    /// `open_today_bal`.
    pub open_today_bal: TreasuryAmount,
    /// `close_today_bal`.
    pub close_today_bal: TreasuryAmount,
}

/// A payload as the contracts see it.
pub enum PayloadView {
    /// DS01 row.
    CashBalance(CashBalanceView),
    /// DS05 row.
    DebtToPenny(TreasuryDebtToPenny),
}

/// A record as the contracts see it.
pub struct RecordView {
    /// Dataset ID.
    pub dataset_id: TreasuryDatasetId,
    /// Business period.
    pub period: Period,
    /// Source frequency.
    pub frequency: Frequency,
    /// Source unit.
    pub unit: Unit,
    /// Revision marker.
    pub revision: Option<Seq<char>>,
    /// Payload.
    pub payload: PayloadView,
}

/// An envelope as the contracts see it.
pub struct EnvelopeView {
    /// The records, in `data[]` order.
    pub records: Seq<RecordView>,
    /// Envelope metadata.
    pub meta: TreasuryEnvelopeMeta,
}

impl View for TreasuryCashBalance {
    type V = CashBalanceView;

    open spec fn view(&self) -> CashBalanceView {
        CashBalanceView {
            account_type: self.account_type@,
            open_today_bal: self.open_today_bal,
            close_today_bal: self.close_today_bal,
        }
    }
}

impl View for TreasuryPayload {
    type V = PayloadView;

    open spec fn view(&self) -> PayloadView {
        match self {
            TreasuryPayload::CashBalance(row) => PayloadView::CashBalance(row@),
            TreasuryPayload::DebtToPenny(row) => PayloadView::DebtToPenny(*row),
        }
    }
}

impl View for TreasuryRecord {
    type V = RecordView;

    open spec fn view(&self) -> RecordView {
        RecordView {
            dataset_id: self.dataset_id,
            period: self.period,
            frequency: self.frequency,
            unit: self.unit,
            revision: match self.revision {
                Some(s) => Some(s@),
                None => None,
            },
            payload: self.payload@,
        }
    }
}

impl View for TreasuryEnvelope {
    type V = EnvelopeView;

    open spec fn view(&self) -> EnvelopeView {
        EnvelopeView { records: self.records@.map_values(|r: TreasuryRecord| r@), meta: self.meta }
    }
}

/// A present amount whose value is not finite.
pub open spec fn is_non_finite(a: TreasuryAmount) -> bool {
    match a {
        TreasuryAmount::Present(bits) => !is_finite_bits(bits),
        TreasuryAmount::Missing(_) => false,
    }
}

/// What the amount check gives: a present non-finite amount is `Invalid`; no present
/// amount at all is `Missing`.
pub open spec fn spec_check_amounts(dataset: Seq<char>, amounts: Seq<TreasuryAmount>) -> Result<(), Failure> {
    if exists|i: int| 0 <= i < amounts.len() && is_non_finite(#[trigger] amounts[i]) {
        Err((TreasuryErrorKind::Invalid, dataset + " 的金额必须是有限值"@))
    } else if forall|i: int| 0 <= i < amounts.len() ==> #[trigger] amounts[i] is Missing {
        Err((TreasuryErrorKind::Missing, dataset + " 的记录没有任何可用金额"@))
    } else {
        Ok(())
    }
}

/// The checks that follow the collection guard, the unit, period and date checks.
pub open spec fn spec_validate_rest(r: RecordView) -> Result<(), Failure> {
    let id = r.dataset_id.id_text();
    if r.frequency != r.dataset_id.source_frequency() {
        Err((TreasuryErrorKind::Invalid, "频率与数据集不符："@ + id))
    } else if r.revision is Some {
        Err((TreasuryErrorKind::Invalid, "清单未声明官方 revision 面，修订标识不得伪造："@ + id))
    } else {
        match (r.payload, r.dataset_id) {
            (PayloadView::CashBalance(row), TreasuryDatasetId::Ds01) => if is_blank(row.account_type) {
                Err((TreasuryErrorKind::Missing, "DS01 的 account_type 不得为空白"@))
            } else {
                spec_check_amounts("DS01"@, seq![row.open_today_bal, row.close_today_bal])
            },
            (PayloadView::DebtToPenny(row), TreasuryDatasetId::Ds05) => spec_check_amounts(
                "DS05"@,
                seq![row.debt_held_public_amt, row.intragov_hold_amt, row.tot_pub_debt_out_amt],
            ),
            _ => Err((TreasuryErrorKind::Invalid, "载荷与数据集不匹配："@ + id)),
        }
    }
}

/// What `validate_record` gives.
#[verifier::opaque]
pub open spec fn spec_validate_record(r: RecordView) -> Result<(), Failure> {
    let id = r.dataset_id.id_text();
    match spec_guard_collection_dataset(r.dataset_id) {
        Err(e) => Err(e),
        Ok(_) => if r.unit != Unit::Unknown {
            Err((TreasuryErrorKind::Invalid, "DS01 / DS05 的源侧单位未在清单声明，记录单位必须为 Unknown："@ + id))
        } else {
            match r.period {
                Period::Day(date) => match spec_new_date(date.year, date.month, date.day) {
                    Err(e) => Err(e),
                    Ok(_) => spec_validate_rest(r),
                },
                _ => Err((TreasuryErrorKind::Invalid, "本域记录的业务期间必须是单日："@ + id)),
            }
        },
    }
}

/// Checks the completeness of a record: collection-face guard, unit, single-day period
/// with a real date, frequency of the dataset, no forged revision, payload of the
/// dataset, finite amounts and at least one amount present.
///
/// Errors: a curve product gives `RoutedElsewhere`, `DS04` `SemanticallyRejected`, any
/// other dataset outside the face `NotApplicable`; a payload of another dataset, a wrong
/// unit or frequency, a forged revision or a non-finite amount give `Invalid`; a blank
/// account type or no amount at all give `Missing`.
pub fn validate_record(record: &TreasuryRecord) -> (r: TreasuryResult<()>)
    ensures
        outcome(r) == spec_validate_record(record@),
{
    reveal(spec_validate_record);
    guard_collection_dataset(record.dataset_id)?;
    let id = record.dataset_id.id();
    if record.unit != Unit::Unknown {
        let mut reason = String::from_str("DS01 / DS05 的源侧单位未在清单声明，记录单位必须为 Unknown：");
        reason.append(id);
        return Err(TreasuryError::Invalid(reason));
    }
    let date = match record.period {
        Period::Day(date) => date,
        _ => {
            let mut reason = String::from_str("本域记录的业务期间必须是单日：");
            reason.append(id);
            return Err(TreasuryError::Invalid(reason));
        },
    };
    Date::new(date.year, date.month, date.day)?;
    if record.frequency != record.dataset_id.frequency() {
        let mut reason = String::from_str("频率与数据集不符：");
        reason.append(id);
        return Err(TreasuryError::Invalid(reason));
    }
    if record.revision.is_some() {
        let mut reason = String::from_str("清单未声明官方 revision 面，修订标识不得伪造：");
        reason.append(id);
        return Err(TreasuryError::Invalid(reason));
    }
    match (&record.payload, record.dataset_id) {
        (TreasuryPayload::CashBalance(row), TreasuryDatasetId::Ds01) => {
            if blank(row.account_type.as_str()) {
                return Err(TreasuryError::Missing(String::from_str("DS01 的 account_type 不得为空白")));
            }
            let amounts = [row.open_today_bal, row.close_today_bal];
            proof {
                assert(amounts@ =~= seq![row.open_today_bal, row.close_today_bal]);
            }
            check_amounts("DS01", &amounts)
        },
        (TreasuryPayload::DebtToPenny(row), TreasuryDatasetId::Ds05) => {
            let amounts = [row.debt_held_public_amt, row.intragov_hold_amt, row.tot_pub_debt_out_amt];
            proof {
                assert(amounts@ =~= seq![row.debt_held_public_amt, row.intragov_hold_amt, row.tot_pub_debt_out_amt]);
            }
            check_amounts("DS05", &amounts)
        },
        _ => {
            let mut reason = String::from_str("载荷与数据集不匹配：");
            reason.append(id);
            Err(TreasuryError::Invalid(reason))
        },
    }
}

/// Amount check: every present amount is finite, and at least one is present.
///
/// Errors: a present non-finite amount gives `Invalid`; otherwise no present amount at
/// all (an empty list included) gives `Missing`.
pub fn check_amounts(dataset: &str, amounts: &[TreasuryAmount]) -> (r: TreasuryResult<()>)
    ensures
        outcome(r) == spec_check_amounts(dataset@, amounts@),
{
    let mut available = false;
    let mut i: usize = 0;
    while i < amounts.len()
        invariant
            i <= amounts@.len(),
            forall|j: int| 0 <= j < i ==> !is_non_finite(#[trigger] amounts@[j]),
            available == (exists|j: int| 0 <= j < i && #[trigger] amounts@[j] is Present),
        decreases amounts@.len() - i,
    {
        match amounts[i].present() {
            Some(bits) => {
                if (bits >> 52u64) & 0x7ffu64 == 0x7ffu64 {
                    let mut reason = String::from_str(dataset);
                    reason.append(" 的金额必须是有限值");
                    return Err(TreasuryError::Invalid(reason));
                }
                available = true;
            },
            None => {},
        }
        i = i + 1;
    }
    if !available {
        let mut reason = String::from_str(dataset);
        reason.append(" 的记录没有任何可用金额");
        return Err(TreasuryError::Missing(reason));
    }
    Ok(())
}

/// Law: a record that `validate_record` accepts is on the collection face, has an
/// undeclared unit, a single real day, the frequency of its dataset, no revision, the
/// payload of its dataset, only finite amounts and at least one of them.
pub proof fn lemma_validated_record_is_complete(r: RecordView)
    requires
        spec_validate_record(r) is Ok,
    ensures
        r.dataset_id == TreasuryDatasetId::Ds01 || r.dataset_id == TreasuryDatasetId::Ds05,
        r.unit == Unit::Unknown,
        r.period matches Period::Day(d) && is_valid_date(d.year as int, d.month as int, d.day as int),
        r.frequency == r.dataset_id.source_frequency(),
        r.revision is None,
        r.dataset_id == TreasuryDatasetId::Ds01 ==> (r.payload matches PayloadView::CashBalance(row)
            && !is_blank(row.account_type)
            && (row.open_today_bal is Present || row.close_today_bal is Present)
            && (row.open_today_bal matches TreasuryAmount::Present(b) ==> is_finite_bits(b))
            && (row.close_today_bal matches TreasuryAmount::Present(b) ==> is_finite_bits(b))),
        r.dataset_id == TreasuryDatasetId::Ds05 ==> (r.payload matches PayloadView::DebtToPenny(row)
            && (row.debt_held_public_amt is Present || row.intragov_hold_amt is Present
                || row.tot_pub_debt_out_amt is Present)
            && (row.debt_held_public_amt matches TreasuryAmount::Present(b) ==> is_finite_bits(b))
            && (row.intragov_hold_amt matches TreasuryAmount::Present(b) ==> is_finite_bits(b))
            && (row.tot_pub_debt_out_amt matches TreasuryAmount::Present(b) ==> is_finite_bits(b))),
{
    reveal(spec_validate_record);
    match r.payload {
        PayloadView::CashBalance(row) => {
            let a = seq![row.open_today_bal, row.close_today_bal];
            assert(a[0] == row.open_today_bal && a[1] == row.close_today_bal);
        },
        PayloadView::DebtToPenny(row) => {
            let a = seq![row.debt_held_public_amt, row.intragov_hold_amt, row.tot_pub_debt_out_amt];
            assert(a[0] == row.debt_held_public_amt && a[1] == row.intragov_hold_amt && a[2]
                == row.tot_pub_debt_out_amt);
        },
    }
}


/// Law: equality of amounts compares numbers. It is symmetric; two present amounts are
/// equal only when their bit patterns are equal or both are zeros (`0.0` and `-0.0`);
/// every present amount that is not a NaN equals itself and the two zeros are equal; a
/// NaN equals nothing; a present amount never equals a missing one; and two missing
/// amounts are equal exactly when their reasons are.
pub proof fn lemma_amount_equality(a: TreasuryAmount, b: TreasuryAmount)
    ensures
        vstd::std_specs::cmp::PartialEqSpec::eq_spec(&a, &b) == vstd::std_specs::cmp::PartialEqSpec::eq_spec(&b, &a),
        a matches TreasuryAmount::Present(x) ==> (b matches TreasuryAmount::Present(y) ==> (vstd::std_specs::cmp::PartialEqSpec::eq_spec(&a, &b)
            ==> (x == y || (x & 0x7fff_ffff_ffff_ffffu64 == 0 && y & 0x7fff_ffff_ffff_ffffu64 == 0)))),
        a matches TreasuryAmount::Present(x) ==> (b matches TreasuryAmount::Present(y) ==> (((x == y
            && !((x >> 52u64) & 0x7ffu64 == 0x7ffu64 && x & 0xf_ffff_ffff_ffffu64 != 0)) || (x
            & 0x7fff_ffff_ffff_ffffu64 == 0 && y & 0x7fff_ffff_ffff_ffffu64 == 0)) ==> vstd::std_specs::cmp::PartialEqSpec::eq_spec(&a, &b))),
        a matches TreasuryAmount::Present(x) ==> (((x >> 52u64) & 0x7ffu64 == 0x7ffu64 && x
            & 0xf_ffff_ffff_ffffu64 != 0) ==> !vstd::std_specs::cmp::PartialEqSpec::eq_spec(&a, &b)),
        (a is Present && b is Missing) ==> !vstd::std_specs::cmp::PartialEqSpec::eq_spec(&a, &b),
        a matches TreasuryAmount::Missing(r) ==> (b matches TreasuryAmount::Missing(q) ==> (vstd::std_specs::cmp::PartialEqSpec::eq_spec(&a, &b)
            <==> r == q)),
{
    if let (TreasuryAmount::Present(x), TreasuryAmount::Present(y)) = (a, b) {
        if x & 0x7fff_ffff_ffff_ffffu64 == 0 && y & 0x7fff_ffff_ffff_ffffu64 == 0 {
            assert(!is_nan_bits(x) && !is_nan_bits(y)) by (bit_vector)
                requires
                    x & 0x7fff_ffff_ffff_ffffu64 == 0,
                    y & 0x7fff_ffff_ffff_ffffu64 == 0,
            ;
        }
    }
}

/// Law: the amount check passes exactly the lists whose present amounts are all finite
/// and that hold at least one present amount, whatever its value (zeros included). A
/// refusal is `Missing` exactly when no slot holds an amount, and `Invalid` otherwise.
pub proof fn lemma_amount_check_outcomes(dataset: Seq<char>, amounts: Seq<TreasuryAmount>)
    ensures
        (spec_check_amounts(dataset, amounts) is Ok) <==> ((forall|i: int|
            0 <= i < amounts.len() ==> (#[trigger] amounts[i] matches TreasuryAmount::Present(b) ==> (b
                >> 52u64) & 0x7ffu64 != 0x7ffu64)) && (exists|i: int|
            0 <= i < amounts.len() && #[trigger] amounts[i] is Present)),
        spec_check_amounts(dataset, amounts) matches Err(e) ==> ((e.0 == TreasuryErrorKind::Missing
            <==> forall|i: int| 0 <= i < amounts.len() ==> #[trigger] amounts[i] is Missing) && (e.0
            == TreasuryErrorKind::Missing || e.0 == TreasuryErrorKind::Invalid)),
{
    if exists|i: int| 0 <= i < amounts.len() && is_non_finite(#[trigger] amounts[i]) {
        let i = choose|i: int| 0 <= i < amounts.len() && is_non_finite(#[trigger] amounts[i]);
        assert(amounts[i] is Present);
    }
}

/// Law: `validate_record` accepts every complete record: a `DS01` or `DS05` record with
/// an undeclared unit, a real single day, daily frequency, no revision, the payload of
/// its dataset, a non-blank account type for `DS01`, only finite amounts and at least
/// one present amount (any one of the slots, zeros included).
pub proof fn lemma_complete_record_is_valid(r: RecordView)
    requires
        r.dataset_id == TreasuryDatasetId::Ds01 || r.dataset_id == TreasuryDatasetId::Ds05,
        r.unit == Unit::Unknown,
        r.period matches Period::Day(d) && is_valid_date(d.year as int, d.month as int, d.day as int),
        r.frequency == Frequency::Daily,
        r.revision is None,
        r.dataset_id == TreasuryDatasetId::Ds01 ==> (r.payload matches PayloadView::CashBalance(row)
            && !is_blank(row.account_type)
            && (row.open_today_bal is Present || row.close_today_bal is Present)
            && (row.open_today_bal matches TreasuryAmount::Present(b) ==> (b >> 52u64) & 0x7ffu64 != 0x7ffu64)
            && (row.close_today_bal matches TreasuryAmount::Present(b) ==> (b >> 52u64) & 0x7ffu64 != 0x7ffu64)),
        r.dataset_id == TreasuryDatasetId::Ds05 ==> (r.payload matches PayloadView::DebtToPenny(row)
            && (row.debt_held_public_amt is Present || row.intragov_hold_amt is Present
                || row.tot_pub_debt_out_amt is Present)
            && (row.debt_held_public_amt matches TreasuryAmount::Present(b) ==> (b >> 52u64) & 0x7ffu64 != 0x7ffu64)
            && (row.intragov_hold_amt matches TreasuryAmount::Present(b) ==> (b >> 52u64) & 0x7ffu64 != 0x7ffu64)
            && (row.tot_pub_debt_out_amt matches TreasuryAmount::Present(b) ==> (b >> 52u64) & 0x7ffu64
                != 0x7ffu64)),
    ensures
        spec_validate_record(r) == Ok::<(), Failure>(()),
{
    reveal(spec_validate_record);
    lemma_new_date_exact(r.period->Day_0.year, r.period->Day_0.month, r.period->Day_0.day);
    match r.payload {
        PayloadView::CashBalance(row) => {
            if r.dataset_id == TreasuryDatasetId::Ds01 {
                let a = seq![row.open_today_bal, row.close_today_bal];
                assert(a[0] == row.open_today_bal && a[1] == row.close_today_bal);
                lemma_amount_check_outcomes("DS01"@, a);
                if row.open_today_bal is Present {
                    assert(a[0] is Present);
                } else {
                    assert(a[1] is Present);
                }
            }
        },
        PayloadView::DebtToPenny(row) => {
            if r.dataset_id == TreasuryDatasetId::Ds05 {
                let a = seq![row.debt_held_public_amt, row.intragov_hold_amt, row.tot_pub_debt_out_amt];
                assert(a[0] == row.debt_held_public_amt && a[1] == row.intragov_hold_amt && a[2]
                    == row.tot_pub_debt_out_amt);
                lemma_amount_check_outcomes("DS05"@, a);
                if row.debt_held_public_amt is Present {
                    assert(a[0] is Present);
                } else if row.intragov_hold_amt is Present {
                    assert(a[1] is Present);
                } else {
                    assert(a[2] is Present);
                }
            }
        },
    }
}

} // verus!
