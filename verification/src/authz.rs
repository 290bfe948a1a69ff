//! Authorization outcome: a fail-closed conclusion that changes nothing.
//!
//! The outcome never rewrites the registered evidence, and every `Denied` carries a
//! readable reason. It answers whether this source's scope is authorized for access,
//! not whether the library is production ready.

use vstd::prelude::*;
use vstd::string::*;

use crate::text::{blank, is_blank, is_white_space, str_eq};

verus! {

broadcast use vstd::string::group_string_axioms;

/// Owner sign-off decision ID (a declaration constant, not a runtime credential).
pub const DECISION_ID: &'static str = "TREASURY-B1-2026-08-20-OFFLINE";

/// The earlier decision ID that the current sign-off supersedes (history only).
pub const SUPERSEDED_DECISION_ID: &'static str = "TREASURY-PROD-2026-08-17-approve";

/// The authorized scope of the library: offline fixtures only.
pub const AUTHORIZED_SCOPE: &'static str = "offline_fixture_only";

/// Authorization channel: pre-authorized for a future live phase only; no live or HTTP
/// client exists here.
pub const LIVE_PREAUTH_CHANNEL: &'static str = "Treasury Fiscal Data 官方 API（未来 live 阶段预授权通道）";

/// Whether live collection needs a new decision ID and the B2–B8 gates (always `true`).
pub const LIVE_REQUIRES_NEW_DECISION: bool = true;

/// The requested authorization scope.
#[non_exhaustive]
#[derive(Debug, Clone, Copy, PartialEq, Eq, Structural)]
pub enum TreasuryScope {
    /// Offline fixtures (the only authorized face of the library).
    OfflineFixtureOnly,
    /// Networked collection (not implemented; not covered by the sign-off).
    LiveCollection,
}

/// Input of the outcome: the checkable fields of an owner sign-off.
#[derive(Debug, Clone, PartialEq, Eq)]
pub struct TreasuryAuthorizationEvidence {
    /// Decision ID.
    pub decision_id: String,
    /// Signer.
    pub signed_by: String,
    /// Scope the sign-off covers.
    pub scope: String,
}

/// The outcome.
#[non_exhaustive]
#[derive(Debug, Clone, PartialEq, Eq)]
pub enum TreasuryAuthorization {
    /// The evidence is valid and covers the requested scope.
    Authorized {
        /// The covered source, mode and use.
        scope: String,
    },
    /// Evidence missing, blank, or not covering the request.
    Denied {
        /// Readable reason of the denial.
        reason: String,
    },
}

/// An outcome as the contracts see it.
pub enum AuthorizationView {
    /// Authorized, with the text of the covered scope.
    Authorized(Seq<char>),
    /// Denied, with the text of the reason.
    Denied(Seq<char>),
}

impl View for TreasuryAuthorizationEvidence {
    type V = (Seq<char>, Seq<char>, Seq<char>);

    open spec fn view(&self) -> (Seq<char>, Seq<char>, Seq<char>) {
        (self.decision_id@, self.signed_by@, self.scope@)
    }
}

impl View for TreasuryAuthorization {
    type V = AuthorizationView;

    open spec fn view(&self) -> AuthorizationView {
        match self {
            TreasuryAuthorization::Authorized { scope } => AuthorizationView::Authorized(scope@),
            TreasuryAuthorization::Denied { reason } => AuthorizationView::Denied(reason@),
        }
    }
}

impl TreasuryAuthorizationEvidence {
    /// Builds an evidence snapshot (no outcome), copying each field.
    pub fn new(decision_id: &str, signed_by: &str, scope: &str) -> (r: Self)
        ensures
            r@ == (decision_id@, signed_by@, scope@),
    {
        TreasuryAuthorizationEvidence {
            decision_id: String::from_str(decision_id),
            signed_by: String::from_str(signed_by),
            scope: String::from_str(scope),
        }
    }
}

/// The reason a live request is denied.
pub open spec fn live_denial_reason() -> Seq<char> {
    "live 采集须另批决策 ID + B2–B8 门禁；"@ + DECISION_ID@ + " 不构成 live 授权，本库亦不实现 live / HTTP 客户端"@
}

/// The scope text of an authorization granted on the given decision ID and signer.
pub open spec fn authorized_scope_text(decision_id: Seq<char>, signed_by: Seq<char>) -> Seq<char> {
    AUTHORIZED_SCOPE@ + "（decision_id="@ + decision_id + "，签署者="@ + signed_by
        + "；授权通道仅为未来 live 阶段预授权，live 须另批）"@
}

/// Scope texts that cover an offline request: the sign-off's product boundary and the
/// existing offline evidence alias, matched character for character.
pub open spec fn covers_offline(scope: Seq<char>) -> bool {
    scope == "offline_fixture_only"@ || scope == "treasury_offline"@
}

/// The outcome for a requested scope and an optional evidence snapshot.
pub open spec fn spec_authorize(
    scope: TreasuryScope,
    evidence: Option<(Seq<char>, Seq<char>, Seq<char>)>,
) -> AuthorizationView {
    match scope {
        TreasuryScope::LiveCollection => AuthorizationView::Denied(live_denial_reason()),
        TreasuryScope::OfflineFixtureOnly => match evidence {
            None => AuthorizationView::Denied("缺少授权证据（fail-closed）"@),
            Some((decision_id, signed_by, covered)) => if is_blank(decision_id) {
                AuthorizationView::Denied("证据缺少决策 ID（签署者不明）"@)
            } else if is_blank(signed_by) {
                AuthorizationView::Denied("证据缺少签署者（签署者不明）"@)
            } else if is_blank(covered) {
                AuthorizationView::Denied("证据缺少覆盖范围（覆盖范围不明）"@)
            } else if !covers_offline(covered) {
                AuthorizationView::Denied("证据范围未覆盖本次离线请求（范围未知或不匹配）"@)
            } else {
                AuthorizationView::Authorized(authorized_scope_text(decision_id, signed_by))
            },
        },
    }
}

/// The evidence argument as the contracts see it.
pub open spec fn evidence_view(evidence: Option<&TreasuryAuthorizationEvidence>) -> Option<
    (Seq<char>, Seq<char>, Seq<char>),
> {
    match evidence {
        Some(e) => Some(e@),
        None => None,
    }
}

/// The fail-closed authorization outcome.
///
/// Scopes match character for character: `offline_fixture_only` (the sign-off's product
/// boundary) and `treasury_offline` (the offline evidence alias); any other scope, or one
/// with surrounding white space, is not accepted. Missing evidence, a blank decision ID,
/// a blank signer, a blank scope or an uncovered scope are all `Denied`, and so is every
/// `LiveCollection` request. Nothing is authorized by default.
pub fn authorize_treasury(
    scope: TreasuryScope,
    evidence: Option<&TreasuryAuthorizationEvidence>,
) -> (r: TreasuryAuthorization)
    ensures
        r@ == spec_authorize(scope, evidence_view(evidence)),
{
    if let TreasuryScope::LiveCollection = scope {
        let mut reason = String::from_str("live 采集须另批决策 ID + B2–B8 门禁；");
        reason.append(DECISION_ID);
        reason.append(" 不构成 live 授权，本库亦不实现 live / HTTP 客户端");
        return TreasuryAuthorization::Denied { reason };
    }
    let evidence = match evidence {
        Some(e) => e,
        None => {
            return TreasuryAuthorization::Denied {
                reason: String::from_str("缺少授权证据（fail-closed）"),
            };
        },
    };
    if blank(evidence.decision_id.as_str()) {
        return TreasuryAuthorization::Denied {
            reason: String::from_str("证据缺少决策 ID（签署者不明）"),
        };
    }
    if blank(evidence.signed_by.as_str()) {
        return TreasuryAuthorization::Denied {
            reason: String::from_str("证据缺少签署者（签署者不明）"),
        };
    }
    let covered = evidence.scope.as_str();
    if blank(covered) {
        return TreasuryAuthorization::Denied {
            reason: String::from_str("证据缺少覆盖范围（覆盖范围不明）"),
        };
    }
    if !(str_eq(covered, "offline_fixture_only") || str_eq(covered, "treasury_offline")) {
        return TreasuryAuthorization::Denied {
            reason: String::from_str("证据范围未覆盖本次离线请求（范围未知或不匹配）"),
        };
    }
    let mut text = String::from_str(AUTHORIZED_SCOPE);
    text.append("（decision_id=");
    text.append(evidence.decision_id.as_str());
    text.append("，签署者=");
    text.append(evidence.signed_by.as_str());
    text.append("；授权通道仅为未来 live 阶段预授权，live 须另批）");
    TreasuryAuthorization::Authorized { scope: text }
}

/// Law (fail-closed): an outcome is `Authorized` exactly when an offline request comes
/// with evidence whose decision ID and signer are not blank and whose scope covers
/// offline fixtures, that is, reads exactly `offline_fixture_only` or `treasury_offline`
/// (every other scope text is denied); a live request is always denied; and an authorized scope always
/// starts with `AUTHORIZED_SCOPE` and ends by saying that live needs a new sign-off.
pub proof fn lemma_authorization_is_fail_closed(
    scope: TreasuryScope,
    evidence: Option<(Seq<char>, Seq<char>, Seq<char>)>,
)
    ensures
        (spec_authorize(scope, evidence) is Authorized) <==> (scope == TreasuryScope::OfflineFixtureOnly
            && (evidence matches Some((d, s, c)) && !is_blank(d) && !is_blank(s) && !is_blank(c) && covers_offline(c))),
        evidence matches Some((d, s, c)) ==> (scope == TreasuryScope::OfflineFixtureOnly && !is_blank(d)
            && !is_blank(s) ==> ((spec_authorize(scope, evidence) is Authorized) <==> (c
            == "offline_fixture_only"@ || c == "treasury_offline"@))),
        scope == TreasuryScope::LiveCollection ==> spec_authorize(scope, evidence) is Denied,
        evidence is None ==> spec_authorize(scope, evidence) is Denied,
        spec_authorize(scope, evidence) matches AuthorizationView::Authorized(text) ==> (
            text.subrange(0, AUTHORIZED_SCOPE@.len() as int) == AUTHORIZED_SCOPE@
            && text.subrange(text.len() - "live 须另批）"@.len(), text.len() as int) == "live 须另批）"@),
        spec_authorize(scope, evidence) matches AuthorizationView::Denied(reason) ==> reason.len() > 0,
{
    reveal_strlit("live 须另批）");
    reveal_strlit("offline_fixture_only");
    reveal_strlit("treasury_offline");
    if let Some((d, s, c)) = evidence {
        if c == "offline_fixture_only"@ || c == "treasury_offline"@ {
            assert(!is_white_space(c[0]));
        }
    }
    reveal_strlit("；授权通道仅为未来 live 阶段预授权，live 须另批）");
    reveal_strlit("live 采集须另批决策 ID + B2–B8 门禁；");
    reveal_strlit("缺少授权证据（fail-closed）");
    reveal_strlit("证据缺少决策 ID（签署者不明）");
    reveal_strlit("证据缺少签署者（签署者不明）");
    reveal_strlit("证据缺少覆盖范围（覆盖范围不明）");
    reveal_strlit("证据范围未覆盖本次离线请求（范围未知或不匹配）");
    if let AuthorizationView::Authorized(text) = spec_authorize(scope, evidence) {
        if let Some((d, s, c)) = evidence {
            let head = AUTHORIZED_SCOPE@;
            let tail = "；授权通道仅为未来 live 阶段预授权，live 须另批）"@;
            let mid = "（decision_id="@ + d + "，签署者="@ + s;
            assert(text =~= head + mid + tail);
            assert(text.subrange(0, head.len() as int) =~= head);
            assert(text.subrange(text.len() - "live 须另批）"@.len(), text.len() as int) =~= "live 须另批）"@);
        }
    }
}

} // verus!
