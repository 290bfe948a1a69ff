//! treasuryx: the offline type layer of US Treasury source facts — dataset constants,
//! routing and authority guards, record validation, envelope parsing and a fail-closed
//! authorization verdict.
//!
//! The library states what the Treasury source facts are and checks them offline. It
//! owns no network capability: no HTTP client, no endpoint, no credential, no proxy.
//! It derives no metric, converts no unit, and writes no canonical key (the canonical
//! writer of the validation series is `fredx`).

pub mod authz;
pub mod error;
pub mod json;
pub mod parse;
pub mod pit;
pub mod text;
pub mod value;

pub use authz::{
    authorize_treasury, TreasuryAuthorization, TreasuryAuthorizationEvidence, TreasuryScope,
    AUTHORIZED_SCOPE, DECISION_ID, LIVE_PREAUTH_CHANNEL, LIVE_REQUIRES_NEW_DECISION,
    SUPERSEDED_DECISION_ID,
};
pub use error::{TreasuryError, TreasuryErrorKind, TreasuryResult};
pub use json::{JsonNumber, JsonText, JsonValue};
pub use parse::parse_treasury_records;
pub use pit::{
    is_formal_pit_eligible, publication_semantics, AvailabilityEvidence, PitEligibility,
    TimePrecision,
};
pub use value::datasets::{
    guard_collection_dataset, guard_curve_product, guard_ny_fed, guard_write_authority,
    is_curve_product, is_validation_only_series, unit_for_validation_series, FredValidationSeries,
    NyFedDatasetId, TreasuryDatasetId, CANONICAL_WRITE_OWNER, DRY_RUN_DECLARED_DATASETS,
    FD_VALIDATION_SERIES, LOSSY_SKELETON_DATASETS, NY_FED_DATASETS, NY_FED_DECISION,
    PHASE1_DATASETS, WIRE_COLLECT_DATASETS,
};
pub use value::record::{
    validate_record, TreasuryAmount, TreasuryCashBalance, TreasuryDebtToPenny, TreasuryEnvelope,
    TreasuryEnvelopeMeta, TreasuryMissingReason, TreasuryPayload, TreasuryRecord,
};
pub use value::{Date, Frequency, Period, Unit};
