//! Error classes and the error type of the library.

use vstd::prelude::*;
use vstd::string::*;

verus! {

broadcast use vstd::string::group_string_axioms;

/// Error class: how a caller should react.
///
/// Callers branch on this enum, never on message text.
#[non_exhaustive]
#[derive(Debug, Clone, Copy, PartialEq, Eq, Hash, Structural)]
pub enum TreasuryErrorKind {
    /// The input is malformed or out of range (fix the data; retrying is pointless).
    Invalid,
    /// A required item is absent.
    Missing,
    /// The authorization verdict did not pass (fail-closed).
    AuthorizationDenied,
    /// The product does not belong here and is routed elsewhere.
    RoutedElsewhere,
    /// A write to a key whose authority lies with another domain.
    WriteAuthorityDenied,
    /// Structurally readable but semantically not accepted.
    SemanticallyRejected,
    /// A planned capability that is not implemented.
    NotApplicable,
    /// An invariant was broken (a library bug).
    Invariant,
}

/// The error of the library: a class and a readable reason.
#[non_exhaustive]
#[derive(Debug)]
pub enum TreasuryError {
    /// Invalid input.
    Invalid(String),
    /// Missing required item.
    Missing(String),
    /// Authorization denied.
    AuthorizationDenied(String),
    /// Routed to another domain.
    RoutedElsewhere(String),
    /// Write authority denied.
    WriteAuthorityDenied(String),
    /// Semantically rejected.
    SemanticallyRejected(String),
    /// Planned capability not implemented.
    NotApplicable(String),
    /// Invariant broken.
    Invariant(String),
}

/// An error as the contracts see it: its class and its reason text.
pub type Failure = (TreasuryErrorKind, Seq<char>);

/// Result type of the library.
pub type TreasuryResult<T> = Result<T, TreasuryError>;

impl View for TreasuryError {
    type V = Failure;

    open spec fn view(&self) -> Failure {
        match self {
            TreasuryError::Invalid(s) => (TreasuryErrorKind::Invalid, s@),
            TreasuryError::Missing(s) => (TreasuryErrorKind::Missing, s@),
            TreasuryError::AuthorizationDenied(s) => (TreasuryErrorKind::AuthorizationDenied, s@),
            TreasuryError::RoutedElsewhere(s) => (TreasuryErrorKind::RoutedElsewhere, s@),
            TreasuryError::WriteAuthorityDenied(s) => (TreasuryErrorKind::WriteAuthorityDenied, s@),
            TreasuryError::SemanticallyRejected(s) => (TreasuryErrorKind::SemanticallyRejected, s@),
            TreasuryError::NotApplicable(s) => (TreasuryErrorKind::NotApplicable, s@),
            TreasuryError::Invariant(s) => (TreasuryErrorKind::Invariant, s@),
        }
    }
}

/// A result as the contracts see it: the value itself, or the error's view.
pub open spec fn outcome<T>(r: Result<T, TreasuryError>) -> Result<T, Failure> {
    match r {
        Ok(v) => Ok(v),
        Err(e) => Err(e@),
    }
}

/// The fixed prefix that the displayed message of each class starts with.
pub open spec fn display_prefix(kind: TreasuryErrorKind) -> Seq<char> {
    match kind {
        TreasuryErrorKind::Invalid => "输入非法："@,
        TreasuryErrorKind::Missing => "缺少必需项："@,
        TreasuryErrorKind::AuthorizationDenied => "授权判定未通过："@,
        TreasuryErrorKind::RoutedElsewhere => "不属于本域，已路由他处："@,
        TreasuryErrorKind::WriteAuthorityDenied => "越权写入被拒绝："@,
        TreasuryErrorKind::SemanticallyRejected => "语义不被接受："@,
        TreasuryErrorKind::NotApplicable => "规划能力尚未实现："@,
        TreasuryErrorKind::Invariant => "不变量被破坏："@,
    }
}

impl TreasuryError {
    /// Builds the error of class `kind` with the given reason.
    pub fn with_kind(kind: TreasuryErrorKind, reason: String) -> (e: TreasuryError)
        ensures
            e@ == (kind, reason@),
    {
        match kind {
            TreasuryErrorKind::Invalid => TreasuryError::Invalid(reason),
            TreasuryErrorKind::Missing => TreasuryError::Missing(reason),
            TreasuryErrorKind::AuthorizationDenied => TreasuryError::AuthorizationDenied(reason),
            TreasuryErrorKind::RoutedElsewhere => TreasuryError::RoutedElsewhere(reason),
            TreasuryErrorKind::WriteAuthorityDenied => TreasuryError::WriteAuthorityDenied(reason),
            TreasuryErrorKind::SemanticallyRejected => TreasuryError::SemanticallyRejected(reason),
            TreasuryErrorKind::NotApplicable => TreasuryError::NotApplicable(reason),
            TreasuryErrorKind::Invariant => TreasuryError::Invariant(reason),
        }
    }

    /// Class of the error, for callers to branch on how to react.
    pub fn kind(&self) -> (k: TreasuryErrorKind)
        ensures
            k == self@.0,
    {
        match self {
            TreasuryError::Invalid(_) => TreasuryErrorKind::Invalid,
            TreasuryError::Missing(_) => TreasuryErrorKind::Missing,
            TreasuryError::AuthorizationDenied(_) => TreasuryErrorKind::AuthorizationDenied,
            TreasuryError::RoutedElsewhere(_) => TreasuryErrorKind::RoutedElsewhere,
            TreasuryError::WriteAuthorityDenied(_) => TreasuryErrorKind::WriteAuthorityDenied,
            TreasuryError::SemanticallyRejected(_) => TreasuryErrorKind::SemanticallyRejected,
            TreasuryError::NotApplicable(_) => TreasuryErrorKind::NotApplicable,
            TreasuryError::Invariant(_) => TreasuryErrorKind::Invariant,
        }
    }

    /// Whether retrying can help. This layer has no network, so only `Invariant` is.
    pub fn is_retryable(&self) -> (r: bool)
        ensures
            r == (self@.0 == TreasuryErrorKind::Invariant),
    {
        match self.kind() {
            TreasuryErrorKind::Invariant => true,
            _ => false,
        }
    }

    /// The reason carried by the error.
    pub fn reason(&self) -> (r: &str)
        ensures
            r@ == self@.1,
    {
        match self {
            TreasuryError::Invalid(s) => s.as_str(),
            TreasuryError::Missing(s) => s.as_str(),
            TreasuryError::AuthorizationDenied(s) => s.as_str(),
            TreasuryError::RoutedElsewhere(s) => s.as_str(),
            TreasuryError::WriteAuthorityDenied(s) => s.as_str(),
            TreasuryError::SemanticallyRejected(s) => s.as_str(),
            TreasuryError::NotApplicable(s) => s.as_str(),
            TreasuryError::Invariant(s) => s.as_str(),
        }
    }

    /// The displayed message: the class's prefix followed by the reason.
    pub fn message(&self) -> (r: String)
        ensures
            r@ == display_prefix(self@.0) + self@.1,
    {
        let prefix = match self.kind() {
            TreasuryErrorKind::Invalid => "输入非法：",
            TreasuryErrorKind::Missing => "缺少必需项：",
            TreasuryErrorKind::AuthorizationDenied => "授权判定未通过：",
            TreasuryErrorKind::RoutedElsewhere => "不属于本域，已路由他处：",
            TreasuryErrorKind::WriteAuthorityDenied => "越权写入被拒绝：",
            TreasuryErrorKind::SemanticallyRejected => "语义不被接受：",
            TreasuryErrorKind::NotApplicable => "规划能力尚未实现：",
            TreasuryErrorKind::Invariant => "不变量被破坏：",
        };
        let mut text = String::from_str(prefix);
        text.append(self.reason());
        text
    }
}

/// Law: the classes never collapse: two errors have the same `kind` exactly
/// when they are the same variant.
pub proof fn lemma_kind_is_faithful(a: TreasuryError, b: TreasuryError)
    ensures
        a@.0 == b@.0 <==> (
            (a is Invalid && b is Invalid)
            || (a is Missing && b is Missing)
            || (a is AuthorizationDenied && b is AuthorizationDenied)
            || (a is RoutedElsewhere && b is RoutedElsewhere)
            || (a is WriteAuthorityDenied && b is WriteAuthorityDenied)
            || (a is SemanticallyRejected && b is SemanticallyRejected)
            || (a is NotApplicable && b is NotApplicable)
            || (a is Invariant && b is Invariant)),
{
}

} // verus!
