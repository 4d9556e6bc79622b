use acp_provider::json::JsonValue;
use acp_provider::message::ContentBlock;
use acp_provider::mode::{GooseMode, ModeMapping, PermissionDecision};
use acp_provider::process::{check_pipes, check_spawn, spawn_acp_process, EnvChange};
use acp_provider::protocol::{AcpError, RpcError};
use acp_provider::provider::AcpProviderConfig;
use acp_provider::session::{SessionConfigOption, SessionConfigOptionCategory};
use acp_provider::stream::AcpUpdate;
use acp_provider::text::{contains_text, followed_by, join, same_text};
use acp_provider::update::{Handover, PermissionReply, SessionUpdate};

fn mode_option(selected: Option<&str>) -> SessionConfigOption {
    SessionConfigOption {
        category: Some(SessionConfigOptionCategory::Mode),
        selected: selected.map(str::to_string),
    }
}

#[test]
fn announced_modes_are_taken_over() {
    let announced = SessionUpdate::CurrentModeUpdate {
        current_mode_id: "approve".into(),
    };
    assert_eq!(announced.mode_after(GooseMode::Auto), GooseMode::Approve);
    let unknown = SessionUpdate::CurrentModeUpdate {
        current_mode_id: "plan".into(),
    };
    assert_eq!(unknown.mode_after(GooseMode::Auto), GooseMode::Auto);
    assert_eq!(
        SessionUpdate::Other.mode_after(GooseMode::Chat),
        GooseMode::Chat
    );
}

#[test]
fn the_last_option_that_names_a_mode_counts() {
    let update = SessionUpdate::ConfigOptionUpdate {
        config_options: vec![
            mode_option(Some("approve")),
            mode_option(Some("chat")),
            mode_option(Some("plan")),
            mode_option(None),
            SessionConfigOption {
                category: Some(SessionConfigOptionCategory::Model),
                selected: Some("auto".into()),
            },
            SessionConfigOption {
                category: None,
                selected: Some("auto".into()),
            },
        ],
    };
    assert_eq!(update.mode_after(GooseMode::SmartApprove), GooseMode::Chat);
    let empty = SessionUpdate::ConfigOptionUpdate {
        config_options: vec![],
    };
    assert_eq!(empty.mode_after(GooseMode::Auto), GooseMode::Auto);
}

#[test]
fn turns_hear_of_texts_thoughts_and_tools() {
    let text = || ContentBlock::Text("t".into());
    assert_eq!(
        SessionUpdate::AgentMessageChunk(text()).for_turn(true),
        Some(AcpUpdate::Text("t".into()))
    );
    assert_eq!(
        SessionUpdate::AgentThoughtChunk(text()).for_turn(true),
        Some(AcpUpdate::Thought("t".into()))
    );
    assert_eq!(
        SessionUpdate::ToolCall {
            tool_call_id: "c".into()
        }
        .for_turn(true),
        Some(AcpUpdate::ToolCallStart { id: "c".into() })
    );
    assert_eq!(
        SessionUpdate::ToolCallUpdate {
            tool_call_id: "c".into(),
            has_status: true,
        }
        .for_turn(true),
        Some(AcpUpdate::ToolCallComplete { id: "c".into() })
    );
    assert_eq!(
        SessionUpdate::ToolCallUpdate {
            tool_call_id: "c".into(),
            has_status: false,
        }
        .for_turn(true),
        None
    );
    assert_eq!(
        SessionUpdate::AgentMessageChunk(ContentBlock::Other(JsonValue::Null)).for_turn(true),
        None
    );
    assert_eq!(
        SessionUpdate::CurrentModeUpdate {
            current_mode_id: "auto".into()
        }
        .for_turn(true),
        None
    );
    assert_eq!(SessionUpdate::AgentMessageChunk(text()).for_turn(false), None);
}

#[test]
fn permission_requests_need_a_turn_that_takes_them() {
    assert_eq!(Handover::Taken.check(), Ok(()));
    for handover in [Handover::NoTurn, Handover::Closed, Handover::Full] {
        assert_eq!(
            handover.check(),
            Err(RpcError {
                code: -32603,
                message: "Internal error".into(),
                data: None,
                text: "Internal error".into(),
            })
        );
    }
    assert_eq!(
        PermissionReply::from_turn(Some(PermissionDecision::AllowOnce)),
        PermissionReply::Decided(PermissionDecision::AllowOnce)
    );
    assert_eq!(PermissionReply::from_turn(None), PermissionReply::Cancelled);
}

#[test]
fn process_environments_are_cleared_before_they_are_set() {
    let config = AcpProviderConfig {
        command: "agent".into(),
        args: vec!["--acp".into()],
        env: vec![("A".into(), "1".into()), ("B".into(), "2".into())],
        env_remove: vec!["A".into(), "C".into()],
        work_dir: "/work".into(),
        mcp_servers: vec![],
        session_mode_id: None,
        mode_mapping: ModeMapping {
            auto: None,
            approve: None,
            smart_approve: None,
            chat: None,
        },
    };
    let plan = spawn_acp_process(&config);
    assert_eq!(plan.command, "agent");
    assert_eq!(plan.args, vec!["--acp".to_string()]);
    assert_eq!(
        plan.env_changes,
        vec![
            EnvChange::Remove("A".into()),
            EnvChange::Remove("C".into()),
            EnvChange::Assign("A".into(), "1".into()),
            EnvChange::Assign("B".into(), "2".into()),
        ]
    );
}

#[test]
fn processes_must_start_and_have_pipes() {
    let message = |text: &str| Err(AcpError::Message(text.to_string()));
    assert_eq!(check_spawn(true), Ok(()));
    assert_eq!(check_spawn(false), message("failed to spawn ACP process"));
    assert_eq!(check_pipes(true, true), Ok(()));
    assert_eq!(check_pipes(false, false), message("no stdin"));
    assert_eq!(check_pipes(true, false), message("no stdout"));
}

#[test]
fn errors_show_their_message_and_data() {
    let error = RpcError::invalid_params("why \"not\"".into());
    assert_eq!(error.text, "Invalid params: \"why \\\"not\\\"\"");
    assert_eq!(error.data, Some(JsonValue::String("why \"not\"".into())));
    assert_eq!(
        RpcError::invalid_params("caf\u{e9} \u{7f}/".into()).text,
        "Invalid params: \"caf\u{e9} \u{7f}/\""
    );
    assert_eq!(
        RpcError::invalid_params(String::new()).text,
        "Invalid params: \"\""
    );
    assert_eq!(RpcError::internal_error(None).text, "Internal error");
    assert_eq!(AcpError::Rpc(error).to_text(), "Invalid params: \"why \\\"not\\\"\"");
    assert_eq!(AcpError::Message("m".into()).to_text(), "m");
}

#[test]
fn texts_are_compared_and_joined() {
    let pieces = vec!["a".to_string(), "b".to_string(), "c".to_string()];
    assert_eq!(join(&pieces, ", "), "a, b, c");
    assert_eq!(join(&pieces[..1].to_vec(), ", "), "a");
    assert_eq!(join(&vec![], ", "), "");
    assert!(contains_text(&pieces, "b"));
    assert!(!contains_text(&pieces, "d"));
    assert!(same_text("x", "x") && !same_text("x", "y"));
    assert_eq!(followed_by("x", "y"), "xy");
}
