//! Publication semantics: the time precision, availability evidence and
//! point-in-time eligibility of the records of this library.
//!
//! Fiscal Data carries no official publication timestamp and no signed-off release
//! calendar, so the evidence layer stays `Inferred` and nothing is promoted to a
//! formal point-in-time observation.

use vstd::prelude::*;

verus! {

/// Time precision of a publication moment.
#[derive(Debug, Clone, Copy, PartialEq, Eq, Structural)]
pub enum TimePrecision {
    /// Only the calendar date is known.
    Date,
    /// An exact instant is known.
    Instant,
}

/// Layer of evidence for when a value became available.
#[derive(Debug, Clone, Copy, PartialEq, Eq, Structural)]
pub enum AvailabilityEvidence {
    /// An official publication timestamp field.
    Official,
    /// A signed-off release calendar.
    Calendar,
    /// Inferred from the record date alone.
    Inferred,
}

/// Whether a value may be promoted to a formal point-in-time observation.
#[derive(Debug, Clone, Copy, PartialEq, Eq, Structural)]
pub enum PitEligibility {
    /// Eligible for formal point-in-time use.
    Formal,
    /// Not eligible.
    NotEligible,
}

/// The publication semantics of every record of this library:
/// date precision, inferred availability, not point-in-time eligible.
pub fn publication_semantics() -> (r: (TimePrecision, AvailabilityEvidence, PitEligibility))
    ensures
        r == (TimePrecision::Date, AvailabilityEvidence::Inferred, PitEligibility::NotEligible),
{
    (TimePrecision::Date, AvailabilityEvidence::Inferred, PitEligibility::NotEligible)
}

/// Whether records of this library are formally point-in-time eligible: never.
pub fn is_formal_pit_eligible() -> (r: bool)
    ensures
        r == (publication_semantics_spec().2 == PitEligibility::Formal),
        !r,
{
    let (_, _, eligibility) = publication_semantics();
    match eligibility {
        PitEligibility::Formal => true,
        PitEligibility::NotEligible => false,
    }
}

/// The publication triple as a value.
pub open spec fn publication_semantics_spec() -> (TimePrecision, AvailabilityEvidence, PitEligibility) {
    (TimePrecision::Date, AvailabilityEvidence::Inferred, PitEligibility::NotEligible)
}

} // verus!
