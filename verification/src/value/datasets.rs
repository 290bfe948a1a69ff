//! Dataset facts and guards: the Phase 1 Fiscal Data datasets, the NY Fed
//! datasets, the FRED validation series, and the curve-routing, collection-face,
//! write-authority and NY Fed guards.

use vstd::prelude::*;
use vstd::string::*;

use crate::error::{outcome, Failure, TreasuryError, TreasuryErrorKind, TreasuryResult};
use crate::text::str_eq;
use crate::value::{Frequency, Unit};

verus! {

broadcast use vstd::string::group_string_axioms;

/// Fiscal Data (Phase 1) dataset ID.
#[non_exhaustive]
#[derive(Debug, Clone, Copy, PartialEq, Eq, Hash, Structural)]
pub enum TreasuryDatasetId {
    /// DS01 DTS operating cash balance (TGA).
    Ds01,
    /// DS02 DTS deposits and withdrawals.
    Ds02,
    /// DS03 DTS public debt transactions.
    Ds03,
    /// DS04 auction results (lossy skeleton map, never an auction fact source).
    Ds04,
    /// DS05 Debt to the Penny.
    Ds05,
    /// DS06 daily yield curve (routed to `yieldx`).
    Ds06,
    /// DS07 real yield curve (TIPS, routed to `yieldx`).
    Ds07,
    /// DS08 MTS monthly receipts and outlays.
    Ds08,
    /// DS09 monthly statement of the public debt (MSPD).
    Ds09,
    /// DS10 interest expense.
    Ds10,
}

/// NY Fed Markets (Phase 2) dataset ID.
#[non_exhaustive]
#[derive(Debug, Clone, Copy, PartialEq, Eq, Hash, Structural)]
pub enum NyFedDatasetId {
    /// FR01 ON RRP.
    Fr01,
    /// FR02 SOMA holdings.
    Fr02,
    /// FR03 primary dealer statistics.
    Fr03,
}

/// FRED cross-validation series (Phase 2, FD01–FD04).
///
/// This domain only reconciles them: the canonical writer is [`CANONICAL_WRITE_OWNER`].
#[non_exhaustive]
#[derive(Debug, Clone, Copy, PartialEq, Eq, Hash, Structural)]
pub enum FredValidationSeries {
    /// FD01.
    Fd01,
    /// FD02.
    Fd02,
    /// FD03.
    Fd03,
    /// FD04.
    Fd04,
}

/// The Phase 1 catalogue (`DS01`–`DS10`).
pub const PHASE1_DATASETS: [TreasuryDatasetId; 10] = [
    TreasuryDatasetId::Ds01,
    TreasuryDatasetId::Ds02,
    TreasuryDatasetId::Ds03,
    TreasuryDatasetId::Ds04,
    TreasuryDatasetId::Ds05,
    TreasuryDatasetId::Ds06,
    TreasuryDatasetId::Ds07,
    TreasuryDatasetId::Ds08,
    TreasuryDatasetId::Ds09,
    TreasuryDatasetId::Ds10,
];

/// The collection face of this domain (the minimal set): `DS01` + `DS05`.
pub const WIRE_COLLECT_DATASETS: [TreasuryDatasetId; 2] = [
    TreasuryDatasetId::Ds01,
    TreasuryDatasetId::Ds05,
];

/// Datasets with a dry-run declaration (`DS01`, `DS04`, `DS05`). Dry-run is not live.
pub const DRY_RUN_DECLARED_DATASETS: [TreasuryDatasetId; 3] = [
    TreasuryDatasetId::Ds01,
    TreasuryDatasetId::Ds04,
    TreasuryDatasetId::Ds05,
];

/// Lossy skeleton map datasets: never an auction fact source, never collected.
pub const LOSSY_SKELETON_DATASETS: [TreasuryDatasetId; 1] = [TreasuryDatasetId::Ds04];

/// The NY Fed Markets catalogue (Phase 2).
pub const NY_FED_DATASETS: [NyFedDatasetId; 3] = [
    NyFedDatasetId::Fr01,
    NyFedDatasetId::Fr02,
    NyFedDatasetId::Fr03,
];

/// The FRED cross-validation series (Phase 2).
pub const FD_VALIDATION_SERIES: [FredValidationSeries; 4] = [
    FredValidationSeries::Fd01,
    FredValidationSeries::Fd02,
    FredValidationSeries::Fd03,
    FredValidationSeries::Fd04,
];

/// The canonical writer of the validation series.
pub const CANONICAL_WRITE_OWNER: &'static str = "fredx";

/// The decision on NY Fed Markets as a whole.
pub const NY_FED_DECISION: &'static str = "NO-GO";

impl TreasuryDatasetId {
    /// The registered form of the ID.
    pub open spec fn id_text(self) -> Seq<char> {
        match self {
            TreasuryDatasetId::Ds01 => "DS01"@,
            TreasuryDatasetId::Ds02 => "DS02"@,
            TreasuryDatasetId::Ds03 => "DS03"@,
            TreasuryDatasetId::Ds04 => "DS04"@,
            TreasuryDatasetId::Ds05 => "DS05"@,
            TreasuryDatasetId::Ds06 => "DS06"@,
            TreasuryDatasetId::Ds07 => "DS07"@,
            TreasuryDatasetId::Ds08 => "DS08"@,
            TreasuryDatasetId::Ds09 => "DS09"@,
            TreasuryDatasetId::Ds10 => "DS10"@,
        }
    }

    /// The source frequency of the dataset.
    pub open spec fn source_frequency(self) -> Frequency {
        match self {
            TreasuryDatasetId::Ds04 => Frequency::Event,
            TreasuryDatasetId::Ds08 | TreasuryDatasetId::Ds09 | TreasuryDatasetId::Ds10 => Frequency::Monthly,
            _ => Frequency::Daily,
        }
    }

    /// The registered form (`DS01`–`DS10`).
    pub fn id(self) -> (r: &'static str)
        ensures
            r@ == self.id_text(),
    {
        match self {
            TreasuryDatasetId::Ds01 => "DS01",
            TreasuryDatasetId::Ds02 => "DS02",
            TreasuryDatasetId::Ds03 => "DS03",
            TreasuryDatasetId::Ds04 => "DS04",
            TreasuryDatasetId::Ds05 => "DS05",
            TreasuryDatasetId::Ds06 => "DS06",
            TreasuryDatasetId::Ds07 => "DS07",
            TreasuryDatasetId::Ds08 => "DS08",
            TreasuryDatasetId::Ds09 => "DS09",
            TreasuryDatasetId::Ds10 => "DS10",
        }
    }

    /// The source frequency: `DS04` is event driven, `DS08`–`DS10` monthly, the rest daily.
    pub fn frequency(self) -> (r: Frequency)
        ensures
            r == self.source_frequency(),
    {
        match self {
            TreasuryDatasetId::Ds04 => Frequency::Event,
            TreasuryDatasetId::Ds08 | TreasuryDatasetId::Ds09 | TreasuryDatasetId::Ds10 => Frequency::Monthly,
            _ => Frequency::Daily,
        }
    }

    /// Parses a dataset ID, failing closed on curve products.
    ///
    /// Errors: `DS06` / `DS07` give `RoutedElsewhere`; any other unknown text gives `Invalid`.
    pub fn parse_id(text: &str) -> (r: TreasuryResult<Self>)
        ensures
            outcome(r) == spec_parse_dataset_id(text@),
    {
        let dataset_id = if str_eq(text, "DS01") {
            TreasuryDatasetId::Ds01
        } else if str_eq(text, "DS02") {
            TreasuryDatasetId::Ds02
        } else if str_eq(text, "DS03") {
            TreasuryDatasetId::Ds03
        } else if str_eq(text, "DS04") {
            TreasuryDatasetId::Ds04
        } else if str_eq(text, "DS05") {
            TreasuryDatasetId::Ds05
        } else if str_eq(text, "DS06") {
            TreasuryDatasetId::Ds06
        } else if str_eq(text, "DS07") {
            TreasuryDatasetId::Ds07
        } else if str_eq(text, "DS08") {
            TreasuryDatasetId::Ds08
        } else if str_eq(text, "DS09") {
            TreasuryDatasetId::Ds09
        } else if str_eq(text, "DS10") {
            TreasuryDatasetId::Ds10
        } else {
            let mut reason = String::from_str("未知数据集 ID：");
            reason.append(text);
            return Err(TreasuryError::Invalid(reason));
        };
        guard_curve_product(dataset_id)?;
        Ok(dataset_id)
    }
}

/// The dataset whose registered form is `t`, if any.
pub open spec fn dataset_named(t: Seq<char>) -> Option<TreasuryDatasetId> {
    if t == "DS01"@ {
        Some(TreasuryDatasetId::Ds01)
    } else if t == "DS02"@ {
        Some(TreasuryDatasetId::Ds02)
    } else if t == "DS03"@ {
        Some(TreasuryDatasetId::Ds03)
    } else if t == "DS04"@ {
        Some(TreasuryDatasetId::Ds04)
    } else if t == "DS05"@ {
        Some(TreasuryDatasetId::Ds05)
    } else if t == "DS06"@ {
        Some(TreasuryDatasetId::Ds06)
    } else if t == "DS07"@ {
        Some(TreasuryDatasetId::Ds07)
    } else if t == "DS08"@ {
        Some(TreasuryDatasetId::Ds08)
    } else if t == "DS09"@ {
        Some(TreasuryDatasetId::Ds09)
    } else if t == "DS10"@ {
        Some(TreasuryDatasetId::Ds10)
    } else {
        None
    }
}

/// What `TreasuryDatasetId::parse_id` gives for the text `t`.
pub open spec fn spec_parse_dataset_id(t: Seq<char>) -> Result<TreasuryDatasetId, Failure> {
    match dataset_named(t) {
        None => Err((TreasuryErrorKind::Invalid, "未知数据集 ID："@ + t)),
        Some(d) => match spec_guard_curve_product(d) {
            Err(e) => Err(e),
            Ok(_) => Ok(d),
        },
    }
}

impl NyFedDatasetId {
    /// The registered form of the ID.
    pub open spec fn id_text(self) -> Seq<char> {
        match self {
            NyFedDatasetId::Fr01 => "FR01"@,
            NyFedDatasetId::Fr02 => "FR02"@,
            NyFedDatasetId::Fr03 => "FR03"@,
        }
    }

    /// The source frequency of the dataset.
    pub open spec fn source_frequency(self) -> Frequency {
        match self {
            NyFedDatasetId::Fr01 => Frequency::Daily,
            NyFedDatasetId::Fr02 | NyFedDatasetId::Fr03 => Frequency::Weekly,
        }
    }

    /// The registered form (`FR01`–`FR03`).
    pub fn id(self) -> (r: &'static str)
        ensures
            r@ == self.id_text(),
    {
        match self {
            NyFedDatasetId::Fr01 => "FR01",
            NyFedDatasetId::Fr02 => "FR02",
            NyFedDatasetId::Fr03 => "FR03",
        }
    }

    /// The source frequency: `FR01` daily, `FR02` / `FR03` weekly.
    pub fn frequency(self) -> (r: Frequency)
        ensures
            r == self.source_frequency(),
    {
        match self {
            NyFedDatasetId::Fr01 => Frequency::Daily,
            NyFedDatasetId::Fr02 | NyFedDatasetId::Fr03 => Frequency::Weekly,
        }
    }

    /// Parses a NY Fed dataset ID; unknown text gives `Invalid`.
    pub fn parse_id(text: &str) -> (r: TreasuryResult<Self>)
        ensures
            outcome(r) == spec_parse_ny_fed_id(text@),
    {
        if str_eq(text, "FR01") {
            Ok(NyFedDatasetId::Fr01)
        } else if str_eq(text, "FR02") {
            Ok(NyFedDatasetId::Fr02)
        } else if str_eq(text, "FR03") {
            Ok(NyFedDatasetId::Fr03)
        } else {
            let mut reason = String::from_str("未知 NY Fed 数据集 ID：");
            reason.append(text);
            Err(TreasuryError::Invalid(reason))
        }
    }
}

/// What `NyFedDatasetId::parse_id` gives for the text `t`.
pub open spec fn spec_parse_ny_fed_id(t: Seq<char>) -> Result<NyFedDatasetId, Failure> {
    if t == "FR01"@ {
        Ok(NyFedDatasetId::Fr01)
    } else if t == "FR02"@ {
        Ok(NyFedDatasetId::Fr02)
    } else if t == "FR03"@ {
        Ok(NyFedDatasetId::Fr03)
    } else {
        Err((TreasuryErrorKind::Invalid, "未知 NY Fed 数据集 ID："@ + t))
    }
}

impl FredValidationSeries {
    /// The registered form of the ID.
    pub open spec fn id_text(self) -> Seq<char> {
        match self {
            FredValidationSeries::Fd01 => "FD01"@,
            FredValidationSeries::Fd02 => "FD02"@,
            FredValidationSeries::Fd03 => "FD03"@,
            FredValidationSeries::Fd04 => "FD04"@,
        }
    }

    /// The FRED series ID.
    pub open spec fn series_text(self) -> Seq<char> {
        match self {
            FredValidationSeries::Fd01 => "WALCL"@,
            FredValidationSeries::Fd02 => "WTREGEN"@,
            FredValidationSeries::Fd03 => "RRPONTSYD"@,
            FredValidationSeries::Fd04 => "WRESBAL"@,
        }
    }

    /// The meaning of the series.
    pub open spec fn label_text(self) -> Seq<char> {
        match self {
            FredValidationSeries::Fd01 => "美联储总资产"@,
            FredValidationSeries::Fd02 => "TGA 周频交叉"@,
            FredValidationSeries::Fd03 => "ON RRP"@,
            FredValidationSeries::Fd04 => "银行准备金"@,
        }
    }

    /// The registered form (`FD01`–`FD04`).
    pub fn id(self) -> (r: &'static str)
        ensures
            r@ == self.id_text(),
    {
        match self {
            FredValidationSeries::Fd01 => "FD01",
            FredValidationSeries::Fd02 => "FD02",
            FredValidationSeries::Fd03 => "FD03",
            FredValidationSeries::Fd04 => "FD04",
        }
    }

    /// The FRED series ID (`WALCL` / `WTREGEN` / `RRPONTSYD` / `WRESBAL`).
    pub fn series_id(self) -> (r: &'static str)
        ensures
            r@ == self.series_text(),
    {
        match self {
            FredValidationSeries::Fd01 => "WALCL",
            FredValidationSeries::Fd02 => "WTREGEN",
            FredValidationSeries::Fd03 => "RRPONTSYD",
            FredValidationSeries::Fd04 => "WRESBAL",
        }
    }

    /// The meaning of the series.
    pub fn label(self) -> (r: &'static str)
        ensures
            r@ == self.label_text(),
    {
        match self {
            FredValidationSeries::Fd01 => "美联储总资产",
            FredValidationSeries::Fd02 => "TGA 周频交叉",
            FredValidationSeries::Fd03 => "ON RRP",
            FredValidationSeries::Fd04 => "银行准备金",
        }
    }

    /// The canonical writer of the series (always [`CANONICAL_WRITE_OWNER`]).
    pub fn canonical_write_owner(self) -> (r: &'static str)
        ensures
            r@ == CANONICAL_WRITE_OWNER@,
    {
        CANONICAL_WRITE_OWNER
    }

    /// Parses a validation series ID; unknown text gives `Invalid`.
    pub fn parse_id(text: &str) -> (r: TreasuryResult<Self>)
        ensures
            outcome(r) == spec_parse_validation_id(text@),
    {
        if str_eq(text, "FD01") {
            Ok(FredValidationSeries::Fd01)
        } else if str_eq(text, "FD02") {
            Ok(FredValidationSeries::Fd02)
        } else if str_eq(text, "FD03") {
            Ok(FredValidationSeries::Fd03)
        } else if str_eq(text, "FD04") {
            Ok(FredValidationSeries::Fd04)
        } else {
            let mut reason = String::from_str("未知校验序列 ID：");
            reason.append(text);
            Err(TreasuryError::Invalid(reason))
        }
    }
}

/// What `FredValidationSeries::parse_id` gives for the text `t`.
pub open spec fn spec_parse_validation_id(t: Seq<char>) -> Result<FredValidationSeries, Failure> {
    if t == "FD01"@ {
        Ok(FredValidationSeries::Fd01)
    } else if t == "FD02"@ {
        Ok(FredValidationSeries::Fd02)
    } else if t == "FD03"@ {
        Ok(FredValidationSeries::Fd03)
    } else if t == "FD04"@ {
        Ok(FredValidationSeries::Fd04)
    } else {
        Err((TreasuryErrorKind::Invalid, "未知校验序列 ID："@ + t))
    }
}

/// Curve products: `DS06` and `DS07`.
pub open spec fn spec_is_curve_product(d: TreasuryDatasetId) -> bool {
    d == TreasuryDatasetId::Ds06 || d == TreasuryDatasetId::Ds07
}

/// Whether `t` is the series ID of one of the FD01–FD04 validation series.
pub open spec fn spec_is_validation_only_series(t: Seq<char>) -> bool {
    exists|s: FredValidationSeries| #[trigger] s.series_text() == t
}

/// What `guard_curve_product` gives.
pub open spec fn spec_guard_curve_product(d: TreasuryDatasetId) -> Result<(), Failure> {
    if spec_is_curve_product(d) {
        Err((TreasuryErrorKind::RoutedElsewhere, d.id_text() + " 是曲线产品，路由 yieldx，不得洗白为普通观测"@))
    } else {
        Ok(())
    }
}

/// What `guard_collection_dataset` gives.
pub open spec fn spec_guard_collection_dataset(d: TreasuryDatasetId) -> Result<(), Failure> {
    if spec_is_curve_product(d) {
        spec_guard_curve_product(d)
    } else if d == TreasuryDatasetId::Ds01 || d == TreasuryDatasetId::Ds05 {
        Ok(())
    } else if d == TreasuryDatasetId::Ds04 {
        Err((TreasuryErrorKind::SemanticallyRejected, "DS04 仅为 lossy skeleton map 的 dry-run 声明，禁作拍卖事实源"@))
    } else {
        Err((TreasuryErrorKind::NotApplicable, d.id_text() + " 不在本域采集面内（采集面 = DS01 + DS05）"@))
    }
}

/// The reason `guard_write_authority` gives for the series ID `t`.
pub open spec fn write_authority_reason(t: Seq<char>) -> Seq<char> {
    t + " 的权威写入归 "@ + CANONICAL_WRITE_OWNER@
        + "；本域是永久校验面，只对账告警，不覆盖权威值、不双写 canonical key"@
}

/// What `guard_write_authority` gives.
pub open spec fn spec_guard_write_authority(t: Seq<char>) -> Result<(), Failure> {
    if spec_is_validation_only_series(t) {
        Err((TreasuryErrorKind::WriteAuthorityDenied, write_authority_reason(t)))
    } else {
        Ok(())
    }
}

/// The reason `guard_ny_fed` gives.
pub open spec fn ny_fed_reason(d: NyFedDatasetId) -> Seq<char> {
    d.id_text() + "：NY Fed Markets 整体 "@ + NY_FED_DECISION@ + "，不进本域采集面"@
}

/// The source unit of a validation series.
pub open spec fn spec_unit_for_validation_series(s: FredValidationSeries) -> Unit {
    match s {
        FredValidationSeries::Fd01 | FredValidationSeries::Fd02 => Unit::MillionsOfUsd,
        FredValidationSeries::Fd03 => Unit::BillionsOfUsd,
        FredValidationSeries::Fd04 => Unit::Unknown,
    }
}

/// Whether the dataset is a curve product (`DS06` / `DS07`).
pub fn is_curve_product(dataset_id: TreasuryDatasetId) -> (r: bool)
    ensures
        r == spec_is_curve_product(dataset_id),
{
    match dataset_id {
        TreasuryDatasetId::Ds06 | TreasuryDatasetId::Ds07 => true,
        _ => false,
    }
}

/// Whether the series ID belongs to the FD01–FD04 permanent validation face.
pub fn is_validation_only_series(series_id: &str) -> (r: bool)
    ensures
        r == spec_is_validation_only_series(series_id@),
{
    let mut i: usize = 0;
    while i < 4
        invariant
            i <= 4,
            forall|j: int| 0 <= j < i ==> #[trigger] FD_VALIDATION_SERIES@[j].series_text() != series_id@,
        decreases 4 - i,
    {
        let series = FD_VALIDATION_SERIES[i];
        if str_eq(series.series_id(), series_id) {
            return true;
        }
        i = i + 1;
    }
    assert forall|s: FredValidationSeries| #[trigger] s.series_text() != series_id@ by {
        match s {
            FredValidationSeries::Fd01 => assert(FD_VALIDATION_SERIES@[0] == s),
            FredValidationSeries::Fd02 => assert(FD_VALIDATION_SERIES@[1] == s),
            FredValidationSeries::Fd03 => assert(FD_VALIDATION_SERIES@[2] == s),
            FredValidationSeries::Fd04 => assert(FD_VALIDATION_SERIES@[3] == s),
        }
    }
    false
}

/// Guard: a curve product never enters as a plain observation; it is routed to `yieldx`.
///
/// Error: `DS06` / `DS07` give `RoutedElsewhere`; every other dataset passes.
pub fn guard_curve_product(dataset_id: TreasuryDatasetId) -> (r: TreasuryResult<()>)
    ensures
        outcome(r) == spec_guard_curve_product(dataset_id),
{
    if is_curve_product(dataset_id) {
        let mut reason = String::from_str(dataset_id.id());
        reason.append(" 是曲线产品，路由 yieldx，不得洗白为普通观测");
        return Err(TreasuryError::RoutedElsewhere(reason));
    }
    Ok(())
}

/// Guard: whether the dataset may enter the collection face (`DS01` + `DS05`).
///
/// Errors: `DS06` / `DS07` give `RoutedElsewhere`; `DS04` gives `SemanticallyRejected`
/// (lossy skeleton map); `DS02`, `DS03`, `DS08`–`DS10` give `NotApplicable`.
pub fn guard_collection_dataset(dataset_id: TreasuryDatasetId) -> (r: TreasuryResult<()>)
    ensures
        outcome(r) == spec_guard_collection_dataset(dataset_id),
{
    guard_curve_product(dataset_id)?;
    match dataset_id {
        TreasuryDatasetId::Ds01 | TreasuryDatasetId::Ds05 => Ok(()),
        TreasuryDatasetId::Ds04 => Err(
            TreasuryError::SemanticallyRejected(
                String::from_str("DS04 仅为 lossy skeleton map 的 dry-run 声明，禁作拍卖事实源"),
            ),
        ),
        other => {
            let mut reason = String::from_str(other.id());
            reason.append(" 不在本域采集面内（采集面 = DS01 + DS05）");
            Err(TreasuryError::NotApplicable(reason))
        },
    }
}

/// Guard: the canonical writer of FD01–FD04 is `fredx`; a write of such a key here is refused.
///
/// Error: a series ID of the validation face gives `WriteAuthorityDenied`; any other passes.
pub fn guard_write_authority(series_id: &str) -> (r: TreasuryResult<()>)
    ensures
        outcome(r) == spec_guard_write_authority(series_id@),
{
    if is_validation_only_series(series_id) {
        let mut reason = String::from_str(series_id);
        reason.append(" 的权威写入归 ");
        reason.append(CANONICAL_WRITE_OWNER);
        reason.append("；本域是永久校验面，只对账告警，不覆盖权威值、不双写 canonical key");
        return Err(TreasuryError::WriteAuthorityDenied(reason));
    }
    Ok(())
}

/// Guard: NY Fed Markets is `NO-GO` as a whole; no dataset of it enters the collection face.
///
/// Always `NotApplicable`.
pub fn guard_ny_fed(dataset_id: NyFedDatasetId) -> (r: TreasuryResult<()>)
    ensures
        outcome(r) == Err::<(), Failure>((TreasuryErrorKind::NotApplicable, ny_fed_reason(dataset_id))),
{
    let mut reason = String::from_str(dataset_id.id());
    reason.append("：NY Fed Markets 整体 ");
    reason.append(NY_FED_DECISION);
    reason.append("，不进本域采集面");
    Err(TreasuryError::NotApplicable(reason))
}

/// The source unit of a validation series: `RRPONTSYD` is in billions, `WALCL` and
/// `WTREGEN` in millions, and `WRESBAL` is not registered, hence `Unknown`.
pub fn unit_for_validation_series(series: FredValidationSeries) -> (r: Unit)
    ensures
        r == spec_unit_for_validation_series(series),
{
    match series {
        FredValidationSeries::Fd01 | FredValidationSeries::Fd02 => Unit::MillionsOfUsd,
        FredValidationSeries::Fd03 => Unit::BillionsOfUsd,
        FredValidationSeries::Fd04 => Unit::Unknown,
    }
}

/// Law: the registered form of every dataset parses back to that dataset, except the
/// curve products, which are routed away; and whatever `parse_id` accepts is the
/// registered form of what it returns.
pub proof fn lemma_dataset_id_roundtrip(d: TreasuryDatasetId, t: Seq<char>)
    ensures
        spec_is_curve_product(d) ==> spec_parse_dataset_id(d.id_text()) == Err::<TreasuryDatasetId, Failure>(
            (TreasuryErrorKind::RoutedElsewhere, d.id_text() + " 是曲线产品，路由 yieldx，不得洗白为普通观测"@),
        ),
        !spec_is_curve_product(d) ==> spec_parse_dataset_id(d.id_text()) == Ok::<TreasuryDatasetId, Failure>(d),
        spec_parse_dataset_id(t) matches Ok(e) ==> e.id_text() == t && !spec_is_curve_product(e),
{
    reveal_strlit("DS01");
    reveal_strlit("DS02");
    reveal_strlit("DS03");
    reveal_strlit("DS04");
    reveal_strlit("DS05");
    reveal_strlit("DS06");
    reveal_strlit("DS07");
    reveal_strlit("DS08");
    reveal_strlit("DS09");
    reveal_strlit("DS10");
    assert("DS01"@[3] == '1' && "DS02"@[3] == '2' && "DS03"@[3] == '3' && "DS04"@[3] == '4');
    assert("DS05"@[3] == '5' && "DS06"@[3] == '6' && "DS07"@[3] == '7' && "DS08"@[3] == '8');
    assert("DS09"@[3] == '9' && "DS10"@[2] == '1' && "DS01"@[2] == '0');
    assert(dataset_named(d.id_text()) == Some(d));
}

/// Law: the registered form of every NY Fed dataset parses back to it, and whatever
/// `parse_id` accepts is the registered form of what it returns.
pub proof fn lemma_ny_fed_id_roundtrip(d: NyFedDatasetId, t: Seq<char>)
    ensures
        spec_parse_ny_fed_id(d.id_text()) == Ok::<NyFedDatasetId, Failure>(d),
        spec_parse_ny_fed_id(t) matches Ok(e) ==> e.id_text() == t,
{
    reveal_strlit("FR01");
    reveal_strlit("FR02");
    reveal_strlit("FR03");
    assert("FR01"@[3] == '1' && "FR02"@[3] == '2' && "FR03"@[3] == '3');
}

/// Law: the registered form of every validation series parses back to it, and whatever
/// `parse_id` accepts is the registered form of what it returns.
pub proof fn lemma_validation_id_roundtrip(s: FredValidationSeries, t: Seq<char>)
    ensures
        spec_parse_validation_id(s.id_text()) == Ok::<FredValidationSeries, Failure>(s),
        spec_parse_validation_id(t) matches Ok(e) ==> e.id_text() == t,
{
    reveal_strlit("FD01");
    reveal_strlit("FD02");
    reveal_strlit("FD03");
    reveal_strlit("FD04");
    assert("FD01"@[3] == '1' && "FD02"@[3] == '2' && "FD03"@[3] == '3' && "FD04"@[3] == '4');
}

/// Law: the collection guard lets through exactly the datasets of `WIRE_COLLECT_DATASETS`;
/// curve products are routed away, `DS04` is rejected as a lossy skeleton, and every
/// other rejection is `NotApplicable`.
pub proof fn lemma_collection_face(d: TreasuryDatasetId)
    ensures
        (spec_guard_collection_dataset(d) is Ok) <==> WIRE_COLLECT_DATASETS@.contains(d),
        spec_is_curve_product(d) ==> (spec_guard_collection_dataset(d) matches Err(e)
            && e.0 == TreasuryErrorKind::RoutedElsewhere),
        LOSSY_SKELETON_DATASETS@.contains(d) ==> (spec_guard_collection_dataset(d) matches Err(e)
            && e.0 == TreasuryErrorKind::SemanticallyRejected),
        spec_guard_collection_dataset(d) matches Err(e) ==> (e.0 == TreasuryErrorKind::RoutedElsewhere
            || e.0 == TreasuryErrorKind::SemanticallyRejected || e.0 == TreasuryErrorKind::NotApplicable),
{
    if WIRE_COLLECT_DATASETS@.contains(d) {
        let i = choose|i: int| 0 <= i < WIRE_COLLECT_DATASETS@.len() && WIRE_COLLECT_DATASETS@[i] == d;
        assert(i == 0 || i == 1);
    }
    if d == TreasuryDatasetId::Ds01 {
        assert(WIRE_COLLECT_DATASETS@[0] == d);
    }
    if d == TreasuryDatasetId::Ds05 {
        assert(WIRE_COLLECT_DATASETS@[1] == d);
    }
    if LOSSY_SKELETON_DATASETS@.contains(d) {
        let i = choose|i: int| 0 <= i < LOSSY_SKELETON_DATASETS@.len() && LOSSY_SKELETON_DATASETS@[i] == d;
        assert(i == 0);
    }
}

/// Law: every validation series is refused as a write target, and any other series ID passes.
pub proof fn lemma_write_authority(s: FredValidationSeries, t: Seq<char>)
    ensures
        spec_guard_write_authority(s.series_text()) matches Err(e) && e.0
            == TreasuryErrorKind::WriteAuthorityDenied,
        (spec_guard_write_authority(t) is Ok) <==> !(exists|v: FredValidationSeries| v.series_text() == t),
{
    assert(spec_is_validation_only_series(s.series_text()));
}

} // verus!
