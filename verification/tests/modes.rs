use acp_provider::deep::DeepClone;
use acp_provider::mode::{
    permission_decision_from_mode, GooseMode, ModeMapping, Permission, PermissionDecision,
};

#[test]
fn test_permission_decision_from_mode_auto_allows() {
    assert_eq!(
        permission_decision_from_mode(GooseMode::Auto),
        Some(PermissionDecision::AllowOnce)
    );
}

#[test]
fn test_permission_decision_from_mode_chat_rejects() {
    assert_eq!(
        permission_decision_from_mode(GooseMode::Chat),
        Some(PermissionDecision::RejectOnce)
    );
}

#[test]
fn test_permission_decision_from_mode_approve_defers() {
    assert_eq!(permission_decision_from_mode(GooseMode::Approve), None);
}

#[test]
fn test_permission_decision_from_mode_smart_approve_defers() {
    assert_eq!(permission_decision_from_mode(GooseMode::SmartApprove), None);
}

#[test]
fn mode_names_lead_back_to_their_modes() {
    for mode in [
        GooseMode::Auto,
        GooseMode::Approve,
        GooseMode::SmartApprove,
        GooseMode::Chat,
    ] {
        assert_eq!(GooseMode::from_str(mode.as_str()), Some(mode));
    }
    assert_eq!(GooseMode::SmartApprove.as_str(), "smart_approve");
    assert_eq!(GooseMode::from_str("not_a_mode"), None);
    assert_eq!(GooseMode::from_str("Auto"), None);
    assert_eq!(GooseMode::from_str(""), None);
}

#[test]
fn permissions_become_decisions_and_denials_are_recorded() {
    let cases = [
        (Permission::AlwaysAllow, PermissionDecision::AllowAlways, false),
        (Permission::AllowOnce, PermissionDecision::AllowOnce, false),
        (Permission::AlwaysDeny, PermissionDecision::RejectAlways, true),
        (Permission::DenyOnce, PermissionDecision::RejectOnce, true),
        (Permission::Cancel, PermissionDecision::Cancel, true),
    ];
    for (permission, decision, recorded) in cases {
        assert_eq!(PermissionDecision::from_permission(permission), decision);
        assert_eq!(decision.should_record_rejection(), recorded);
    }
}

#[test]
fn modes_are_found_in_their_mapping() {
    let mapping = ModeMapping {
        auto: Some("bypass".into()),
        approve: None,
        smart_approve: Some("edits".into()),
        chat: Some("plan".into()),
    };
    assert_eq!(mapping.get(GooseMode::Auto), Some(&"bypass".to_string()));
    assert_eq!(mapping.get(GooseMode::Approve), None);
    assert_eq!(mapping.get(GooseMode::SmartApprove), Some(&"edits".to_string()));
    assert_eq!(mapping.get(GooseMode::Chat), Some(&"plan".to_string()));
    assert_eq!(mapping.deep_clone(), mapping);
}
