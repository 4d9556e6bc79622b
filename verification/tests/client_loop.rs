use acp_provider::client_loop::{
    apply_session_mode, AcpClientLoop, AgentCall, InitializeFailure, InitializeResponse, ModeStep,
    NewSessionStep, Serving,
};
use acp_provider::json::JsonValue;
use acp_provider::message::ContentBlock;
use acp_provider::mode::ModeMapping;
use acp_provider::protocol::{log_undelivered, AcpError, RpcError};
use acp_provider::provider::AcpProviderConfig;
use acp_provider::request::ClientRequest;
use acp_provider::servers::{McpCapabilities, McpServer, McpServerHttp, McpServerStdio};
use acp_provider::session::{NewSessionResponse, SessionModeState};
use acp_provider::stream::AcpUpdate;
use sacp::schema::StopReason;

fn http() -> McpServer {
    McpServer::Http(McpServerHttp {
        name: "mcp-fixture".into(),
        url: "http://localhost".into(),
        headers: vec![],
        meta: None,
    })
}

fn stdio() -> McpServer {
    McpServer::Stdio(McpServerStdio {
        name: "local".into(),
        command: "server".into(),
        args: vec![],
        env: vec![],
        meta: None,
    })
}

fn config(session_mode_id: Option<&str>) -> AcpProviderConfig {
    AcpProviderConfig {
        command: "agent".into(),
        args: vec![],
        env: vec![],
        env_remove: vec![],
        work_dir: "/work".into(),
        mcp_servers: vec![http(), stdio()],
        session_mode_id: session_mode_id.map(str::to_string),
        mode_mapping: ModeMapping {
            auto: None,
            approve: None,
            smart_approve: None,
            chat: None,
        },
    }
}

fn initialized(session_mode_id: Option<&str>, http: bool, can_close_sessions: bool) -> Serving {
    let response = InitializeResponse {
        auth_methods: vec![],
        mcp_capabilities: McpCapabilities { http, sse: false },
        can_close_sessions,
    };
    match AcpClientLoop::new(config(session_mode_id)).initialized(Ok(response)) {
        Ok((serving, auth_methods)) => {
            assert!(auth_methods.is_empty());
            serving
        }
        Err(failure) => panic!("{:?}", failure),
    }
}

fn refusal(text: &str) -> RpcError {
    RpcError {
        code: -32000,
        message: text.to_string(),
        data: None,
        text: text.to_string(),
    }
}

fn session(id: &str, modes: Option<(&str, &[&str])>) -> NewSessionResponse {
    NewSessionResponse {
        session_id: id.to_string(),
        modes: modes.map(|(current, available)| SessionModeState {
            current_mode_id: current.to_string(),
            available_mode_ids: available.iter().map(|id| id.to_string()).collect(),
        }),
        model_ids: None,
        config_options: None,
        answer: JsonValue::Null,
    }
}

fn delivered(step: NewSessionStep) -> Result<NewSessionResponse, AcpError> {
    match step {
        NewSessionStep::Deliver(delivery) => delivery,
        NewSessionStep::ChangeMode(_, _) => panic!("the mode is changed"),
    }
}

#[test]
fn failed_initialization_is_told_to_both_sides() {
    let failure = match AcpClientLoop::new(config(None)).initialized(Err(refusal("no"))) {
        Ok(_) => panic!("initialized"),
        Err(failure) => failure,
    };
    assert_eq!(
        failure,
        InitializeFailure {
            message: AcpError::Message("ACP initialize failed: no".into()),
            error: RpcError {
                code: -32603,
                message: "Internal error".into(),
                data: Some(JsonValue::String("ACP initialize failed: no".into())),
                text: "Internal error: \"ACP initialize failed: no\"".into(),
            },
        }
    );
    assert_eq!(AcpClientLoop::initialize_method(), "initialize");
    assert_eq!(Serving::close_method(), "session/close");
}

#[test]
fn new_sessions_get_the_servers_that_the_agent_can_reach() {
    let mut capable = initialized(None, true, false);
    assert_eq!(
        capable.call(ClientRequest::NewSession {
            stored_mode_id: None,
        }),
        AgentCall::NewSession {
            cwd: "/work".into(),
            mcp_servers: vec![http(), stdio()],
            stored_mode_id: None,
        }
    );
    let mut incapable = initialized(None, false, false);
    assert_eq!(
        incapable.call(ClientRequest::NewSession {
            stored_mode_id: None,
        }),
        AgentCall::NewSession {
            cwd: "/work".into(),
            mcp_servers: vec![stdio()],
            stored_mode_id: None,
        }
    );
}

#[test]
fn other_requests_are_passed_on() {
    let mut serving = initialized(None, true, false);
    assert_eq!(
        serving.call(ClientRequest::ListSessions),
        AgentCall::ListSessions
    );
    assert_eq!(
        serving.call(ClientRequest::SetMode {
            session_id: "a".into(),
            mode_id: "m".into(),
        }),
        AgentCall::SetMode {
            session_id: "a".into(),
            mode_id: "m".into(),
        }
    );
    assert_eq!(
        serving.call(ClientRequest::SetModel {
            session_id: "a".into(),
            model_id: "m".into(),
        }),
        AgentCall::SetModel {
            session_id: "a".into(),
            model_id: "m".into(),
        }
    );
    assert_eq!(
        serving.call(ClientRequest::SetConfigOption {
            session_id: "a".into(),
            config_id: "c".into(),
            value: "v".into(),
        }),
        AgentCall::SetConfigOption {
            session_id: "a".into(),
            config_id: "c".into(),
            value: "v".into(),
        }
    );
    assert_eq!(
        serving.call(ClientRequest::Untyped {
            method: "session/delete".into(),
            params: JsonValue::Null,
        }),
        AgentCall::Untyped {
            method: "session/delete".into(),
            params: JsonValue::Null,
        }
    );
    assert!(!serving.in_turn());
}

#[test]
fn a_turn_lasts_from_the_prompt_to_its_answer() {
    let mut serving = initialized(None, true, false);
    let content = || vec![ContentBlock::Text("hi".into())];
    assert_eq!(
        serving.call(ClientRequest::Prompt {
            session_id: "a".into(),
            content: content(),
        }),
        AgentCall::Prompt {
            session_id: "a".into(),
            content: content(),
        }
    );
    assert!(serving.in_turn());
    assert_eq!(
        serving.prompt_answered(Ok(StopReason::Refusal)),
        AcpUpdate::Complete(StopReason::Refusal)
    );
    assert!(!serving.in_turn());
    assert_eq!(
        serving.prompt_answered(Err(refusal("lost"))),
        AcpUpdate::Error("lost".into())
    );
}

#[test]
fn sessions_stay_in_their_mode_where_none_is_asked_for() {
    let mut serving = initialized(None, true, true);
    let step = serving.handle_new_session_request(None, Ok(session("a", Some(("ask", &["ask"])))));
    assert_eq!(delivered(step), Ok(session("a", Some(("ask", &["ask"])))));
    let mut serving = initialized(Some("plan"), true, true);
    let step = serving.handle_new_session_request(None, Ok(session("b", None)));
    assert_eq!(delivered(step), Ok(session("b", None)));
    let step = serving.handle_new_session_request(None, Ok(session("c", Some(("plan", &[])))));
    assert_eq!(delivered(step), Ok(session("c", Some(("plan", &[])))));
    assert_eq!(serving.close(), vec!["b".to_string(), "c".to_string()]);
}

#[test]
fn sessions_are_put_into_the_mode_asked_for() {
    let mut serving = initialized(Some("plan"), true, true);
    let offered = || session("a", Some(("ask", &["ask", "plan"])));
    let changing = match serving.handle_new_session_request(None, Ok(offered())) {
        NewSessionStep::ChangeMode(changing, call) => {
            assert_eq!(
                call,
                AgentCall::SetMode {
                    session_id: "a".into(),
                    mode_id: "plan".into(),
                }
            );
            changing
        }
        NewSessionStep::Deliver(_) => panic!("the mode is not changed"),
    };
    assert_eq!(serving.mode_changed(changing, Ok(())), Ok(offered()));
    let changing = match serving.handle_new_session_request(None, Ok(offered())) {
        NewSessionStep::ChangeMode(changing, _) => changing,
        NewSessionStep::Deliver(_) => panic!("the mode is not changed"),
    };
    assert_eq!(
        serving.mode_changed(changing, Err(refusal("busy"))),
        Err(AcpError::Message(
            "ACP agent rejected session/set_mode: busy".into()
        ))
    );
    assert_eq!(serving.close(), vec!["a".to_string()]);
}

#[test]
fn modes_that_are_not_offered_are_refused() {
    let mut serving = initialized(Some("plan"), true, true);
    let step = serving.handle_new_session_request(None, Ok(session("a", Some(("ask", &["ask", "code"])))));
    assert_eq!(
        delivered(step),
        Err(AcpError::Message(
            "Requested mode 'plan' not offered by agent. Available modes: ask, code".into()
        ))
    );
    assert_eq!(
        apply_session_mode(&Some("plan".into()), &session("a", Some(("ask", &[])))),
        ModeStep::Refuse("Requested mode 'plan' not offered by agent. Available modes: ".into())
    );
    assert!(serving.close().is_empty());
}

#[test]
fn failed_sessions_are_told_and_not_closed() {
    let mut serving = initialized(None, true, true);
    assert_eq!(
        delivered(serving.handle_new_session_request(None, Err(refusal("full")))),
        Err(AcpError::Message("ACP session/new failed: full".into()))
    );
    let step = serving.handle_new_session_request(None, Ok(session("a", None)));
    assert!(delivered(step).is_ok());
    assert_eq!(
        delivered(serving.handle_new_session_request(None, Err(refusal("full")))),
        Err(AcpError::Message("ACP session/new failed: full".into()))
    );
    let step = serving.handle_new_session_request(None, Ok(session("b", None)));
    assert!(delivered(step).is_ok());
    assert_eq!(serving.close(), vec!["a".to_string(), "b".to_string()]);
}

#[test]
fn sessions_are_not_closed_where_the_agent_cannot_be_told() {
    let mut serving = initialized(None, true, false);
    let step = serving.handle_new_session_request(None, Ok(session("a", None)));
    assert!(delivered(step).is_ok());
    assert!(serving.close().is_empty());
}

#[test]
fn undelivered_answers_are_recorded() {
    assert_eq!(
        log_undelivered(Err("gone"), "session/new"),
        Some(("session/new".to_string(), "gone"))
    );
    assert_eq!(log_undelivered::<&str>(Ok(()), "session/new"), None);
}

#[test]
fn a_stored_mode_counts_where_the_session_has_it() {
    for configured in [None, Some("ask"), Some("code")] {
        let mut serving = initialized(configured, true, true);
        let stored = match serving.call(ClientRequest::NewSession {
            stored_mode_id: Some("plan".into()),
        }) {
            AgentCall::NewSession { stored_mode_id, .. } => stored_mode_id,
            _ => panic!("no session is created"),
        };
        assert_eq!(stored, Some("plan".to_string()));
        let offered = session("a", Some(("ask", &["ask", "code", "plan"])));
        match serving.handle_new_session_request(stored, Ok(offered)) {
            NewSessionStep::ChangeMode(_, call) => assert_eq!(
                call,
                AgentCall::SetMode {
                    session_id: "a".into(),
                    mode_id: "plan".into(),
                }
            ),
            NewSessionStep::Deliver(_) => panic!("the mode is not changed"),
        }
        let in_it = || session("b", Some(("plan", &[])));
        let step = serving.handle_new_session_request(Some("plan".into()), Ok(in_it()));
        assert_eq!(delivered(step), Ok(in_it()));
    }
}

#[test]
fn the_configured_mode_counts_where_the_stored_one_is_not_had() {
    let mut serving = initialized(Some("code"), true, true);
    let offered = session("a", Some(("ask", &["ask", "code"])));
    match serving.handle_new_session_request(Some("plan".into()), Ok(offered)) {
        NewSessionStep::ChangeMode(_, call) => assert_eq!(
            call,
            AgentCall::SetMode {
                session_id: "a".into(),
                mode_id: "code".into(),
            }
        ),
        NewSessionStep::Deliver(_) => panic!("the mode is not changed"),
    }
    let step = serving.handle_new_session_request(Some("plan".into()), Ok(session("b", None)));
    assert_eq!(delivered(step), Ok(session("b", None)));
}
