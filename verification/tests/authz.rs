use treasuryx::{
    authorize_treasury, TreasuryAuthorization, TreasuryAuthorizationEvidence, TreasuryScope,
    AUTHORIZED_SCOPE, DECISION_ID, LIVE_PREAUTH_CHANNEL, LIVE_REQUIRES_NEW_DECISION,
    SUPERSEDED_DECISION_ID,
};

fn evidence() -> TreasuryAuthorizationEvidence {
    TreasuryAuthorizationEvidence::new(DECISION_ID, "ZoneCNH", "treasury_offline")
}

#[test]
fn authorized_scope_is_explicitly_offline_only() {
    match authorize_treasury(TreasuryScope::OfflineFixtureOnly, Some(&evidence())) {
        TreasuryAuthorization::Authorized { scope } => {
            assert!(scope.contains(AUTHORIZED_SCOPE), "实际：{scope}");
            assert!(scope.contains("live 须另批"), "必须显式声明仅覆盖离线范围");
            assert!(!scope.contains("production"), "不得声称生产就绪：{scope}");
        }
        other => panic!("离线面应授权：{other:?}"),
    }
}

#[test]
fn missing_evidence_is_denied() {
    assert!(matches!(
        authorize_treasury(TreasuryScope::OfflineFixtureOnly, None),
        TreasuryAuthorization::Denied { .. }
    ));
}

#[test]
fn live_collection_is_denied_even_with_valid_evidence() {
    let verdict = authorize_treasury(TreasuryScope::LiveCollection, Some(&evidence()));
    match verdict {
        TreasuryAuthorization::Denied { reason } => {
            assert!(reason.contains("另批"), "实际：{reason}");
        }
        other => panic!("live 必须拒绝：{other:?}"),
    }
    assert_eq!(
        u8::from(LIVE_REQUIRES_NEW_DECISION),
        1,
        "live 恒须另批决策 ID + B2–B8 门禁"
    );
}

#[test]
fn blank_evidence_fields_are_denied() {
    for blank in ["", "   "] {
        let blank_id = TreasuryAuthorizationEvidence::new(blank, "ZoneCNH", "s");
        assert!(matches!(
            authorize_treasury(TreasuryScope::OfflineFixtureOnly, Some(&blank_id)),
            TreasuryAuthorization::Denied { .. }
        ));
        let blank_signer = TreasuryAuthorizationEvidence::new(DECISION_ID, blank, "s");
        assert!(matches!(
            authorize_treasury(TreasuryScope::OfflineFixtureOnly, Some(&blank_signer)),
            TreasuryAuthorization::Denied { .. }
        ));
        let blank_scope = TreasuryAuthorizationEvidence::new(DECISION_ID, "ZoneCNH", blank);
        assert!(matches!(
            authorize_treasury(TreasuryScope::OfflineFixtureOnly, Some(&blank_scope)),
            TreasuryAuthorization::Denied { .. }
        ));
    }
}

#[test]
fn declaration_constants_match_the_manifest() {
    assert_eq!(DECISION_ID, "TREASURY-B1-2026-08-20-OFFLINE");
    assert_eq!(SUPERSEDED_DECISION_ID, "TREASURY-PROD-2026-08-17-approve");
    assert!(!LIVE_PREAUTH_CHANNEL.is_empty());
}

#[test]
fn authorization_checks_scope_coverage() {
    for scope in [
        "unknown",
        "unrelated_source_only",
        "live_only",
        " offline_fixture_only ",
        " domain_yahoo_release",
        "domain_yahoo_release ",
        "treasury_offline-extra",
    ] {
        let e = TreasuryAuthorizationEvidence::new(DECISION_ID, "ZoneCNH", scope);
        assert!(matches!(
            authorize_treasury(TreasuryScope::OfflineFixtureOnly, Some(&e)),
            TreasuryAuthorization::Denied { .. }
        ));
    }
    for scope in ["offline_fixture_only", "treasury_offline"] {
        let e = TreasuryAuthorizationEvidence::new(DECISION_ID, "ZoneCNH", scope);
        assert!(matches!(
            authorize_treasury(TreasuryScope::OfflineFixtureOnly, Some(&e)),
            TreasuryAuthorization::Authorized { .. }
        ));
    }
}

#[test]
fn authorized_scope_text_is_exact() {
    let e = TreasuryAuthorizationEvidence::new("D-1", "Signer", "offline_fixture_only");
    assert_eq!(
        authorize_treasury(TreasuryScope::OfflineFixtureOnly, Some(&e)),
        TreasuryAuthorization::Authorized {
            scope: "offline_fixture_only（decision_id=D-1，签署者=Signer；授权通道仅为未来 live 阶段预授权，live 须另批）"
                .to_owned()
        }
    );
}

#[test]
fn each_denial_names_its_reason() {
    let reason = |verdict: TreasuryAuthorization| match verdict {
        TreasuryAuthorization::Denied { reason } => reason,
        other => panic!("应为 Denied：{other:?}"),
    };
    assert_eq!(
        reason(authorize_treasury(TreasuryScope::OfflineFixtureOnly, None)),
        "缺少授权证据（fail-closed）"
    );
    let e = TreasuryAuthorizationEvidence::new("\t", "ZoneCNH", "treasury_offline");
    assert_eq!(
        reason(authorize_treasury(TreasuryScope::OfflineFixtureOnly, Some(&e))),
        "证据缺少决策 ID（签署者不明）"
    );
    let e = TreasuryAuthorizationEvidence::new(DECISION_ID, "\u{3000}", "treasury_offline");
    assert_eq!(
        reason(authorize_treasury(TreasuryScope::OfflineFixtureOnly, Some(&e))),
        "证据缺少签署者（签署者不明）"
    );
    let e = TreasuryAuthorizationEvidence::new(DECISION_ID, "ZoneCNH", " ");
    assert_eq!(
        reason(authorize_treasury(TreasuryScope::OfflineFixtureOnly, Some(&e))),
        "证据缺少覆盖范围（覆盖范围不明）"
    );
    let e = TreasuryAuthorizationEvidence::new(DECISION_ID, "ZoneCNH", "treasury");
    assert_eq!(
        reason(authorize_treasury(TreasuryScope::OfflineFixtureOnly, Some(&e))),
        "证据范围未覆盖本次离线请求（范围未知或不匹配）"
    );
    assert_eq!(
        reason(authorize_treasury(TreasuryScope::LiveCollection, None)),
        "live 采集须另批决策 ID + B2–B8 门禁；TREASURY-B1-2026-08-20-OFFLINE 不构成 live 授权，本库亦不实现 live / HTTP 客户端"
    );
}

#[test]
fn evidence_new_keeps_every_field() {
    let e = TreasuryAuthorizationEvidence::new("a", "b", "c");
    assert_eq!(e.decision_id, "a");
    assert_eq!(e.signed_by, "b");
    assert_eq!(e.scope, "c");
}
