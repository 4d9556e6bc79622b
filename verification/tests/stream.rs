use acp_provider::json::JsonValue;
use acp_provider::message::{
    ContentBlock, Message, MessageContent, RequestPermissionRequest, Role,
};
use acp_provider::mode::{
    GooseMode, ModeMapping, Permission, PermissionConfirmation, PermissionDecision, PrincipalType,
};
use acp_provider::protocol::{AcpError, ProviderError, Reply};
use acp_provider::provider::{AcpProvider, AcpProviderConfig, ModelConfig};
use acp_provider::request::ClientRequest;
use acp_provider::session::NewSessionResponse;
use acp_provider::stream::{
    AcpUpdate, Answer, Prompting, PromptStream, Question, StreamAction, StreamStart,
};
use sacp::schema::StopReason;

fn model(name: &str) -> ModelConfig {
    ModelConfig {
        model_name: name.to_string(),
    }
}

fn provider() -> AcpProvider {
    let config = AcpProviderConfig {
        command: "agent".into(),
        args: vec![],
        env: vec![],
        env_remove: vec![],
        work_dir: "/work".into(),
        mcp_servers: vec![],
        session_mode_id: None,
        mode_mapping: ModeMapping {
            auto: None,
            approve: None,
            smart_approve: None,
            chat: None,
        },
    };
    match AcpProvider::connect("acp".into(), model("base"), &config, Reply::Done(vec![])) {
        Ok(provider) => provider,
        Err(error) => panic!("{:?}", error),
    }
}

fn session(id: &str) -> NewSessionResponse {
    NewSessionResponse {
        session_id: id.to_string(),
        modes: None,
        model_ids: None,
        config_options: None,
        answer: JsonValue::Null,
    }
}

fn asks(text: &str) -> Vec<Message> {
    vec![Message {
        role: Role::User,
        content: vec![MessageContent::Text(text.to_string())],
        user_visible: true,
        agent_visible: true,
    }]
}

fn prompt_request(start: StreamStart) -> (Prompting, ClientRequest) {
    match start {
        StreamStart::Prompt(prompting, request) => (prompting, request),
        StreamStart::Create(_, _) => panic!("create"),
        StreamStart::Forward(_, _) => panic!("forward"),
        StreamStart::Fail(error) => panic!("{:?}", error),
    }
}

fn expected_prompt(text: &str) -> ClientRequest {
    ClientRequest::Prompt {
        session_id: "a".into(),
        content: vec![ContentBlock::Text(text.to_string())],
    }
}

/// The stream of a turn in this mode, in a session that has been established.
fn streaming(provider: &mut AcpProvider, mode: GooseMode) -> PromptStream {
    assert!(provider
        .session_created(Some("g"), Reply::Done(session("a")))
        .is_ok());
    let start = provider.stream(&model("base"), "g", &asks("hi"));
    let (prompting, request) = prompt_request(start);
    assert_eq!(request, expected_prompt("hi"));
    match prompting.sent(true, Some(mode)) {
        Ok(stream) => stream,
        Err(error) => panic!("{:?}", error),
    }
}

fn yielded(action: StreamAction) -> Option<Message> {
    match action {
        StreamAction::Yield(message) => Some(message),
        StreamAction::Nothing => None,
        _ => panic!("neither a message nor nothing"),
    }
}

fn text(text: &str) -> Option<AcpUpdate> {
    Some(AcpUpdate::Text(text.to_string()))
}

fn started(id: &str) -> Option<AcpUpdate> {
    Some(AcpUpdate::ToolCallStart { id: id.to_string() })
}

fn done(id: &str) -> Option<AcpUpdate> {
    Some(AcpUpdate::ToolCallComplete { id: id.to_string() })
}

fn request(id: &str, ticket: u64) -> Option<AcpUpdate> {
    Some(AcpUpdate::PermissionRequest {
        request: RequestPermissionRequest {
            tool_call_id: id.to_string(),
            title: Some("get_code".into()),
            raw_input: None,
            content: None,
        },
        ticket,
    })
}

fn denied() -> Option<Message> {
    Some(Message::said("Tool call was denied.".into()))
}

fn answer(permission: Permission) -> PermissionConfirmation {
    PermissionConfirmation {
        principal_type: PrincipalType::Tool,
        permission,
    }
}

fn question(action: StreamAction) -> (Question, Option<Message>, Option<u64>) {
    match action {
        StreamAction::Ask {
            question,
            message,
            replaced,
        } => (question, message, replaced),
        _ => panic!("nobody is asked"),
    }
}

#[test]
fn first_turn_creates_a_session_and_prompts() {
    let mut provider = provider();
    let start = provider.stream(&model("base"), "g", &asks("what is 1+1"));
    let creating = match start {
        StreamStart::Create(creating, request) => {
            assert_eq!(
                request,
                ClientRequest::NewSession {
                    stored_mode_id: None
                }
            );
            creating
        }
        _ => panic!("no session is created"),
    };
    let start = creating.created(&mut provider, Reply::Done(session("a")));
    let (_, request) = prompt_request(start);
    assert_eq!(request, expected_prompt("what is 1+1"));
    assert!(provider.has_session("g"));
}

#[test]
fn first_turn_fails_with_its_session() {
    let mut provider = provider();
    let start = provider.stream(&model("base"), "g", &asks("hi"));
    let creating = match start {
        StreamStart::Create(creating, request) => {
            assert_eq!(
                request,
                ClientRequest::NewSession {
                    stored_mode_id: None
                }
            );
            creating
        }
        _ => panic!("no session is created"),
    };
    match creating.created(&mut provider, Reply::Unavailable) {
        StreamStart::Fail(error) => assert_eq!(
            error,
            ProviderError::RequestFailed(
                "Failed to create ACP session: ACP client is unavailable".into()
            )
        ),
        _ => panic!("the turn goes on"),
    }
    assert!(!provider.has_session("g"));
}

#[test]
fn another_model_is_forwarded_before_the_prompt_and_only_once() {
    let mut provider = provider();
    assert!(provider
        .session_created(Some("g"), Reply::Done(session("a")))
        .is_ok());
    let start = provider.stream(&model("o4-mini"), "g", &asks("hi"));
    let forwarding = match start {
        StreamStart::Forward(forwarding, request) => {
            assert_eq!(
                request,
                ClientRequest::SetModel {
                    session_id: "a".into(),
                    model_id: "o4-mini".into(),
                }
            );
            forwarding
        }
        _ => panic!("no model is forwarded"),
    };
    let start = forwarding.forwarded(&mut provider, Reply::Done(()));
    let (_, request) = prompt_request(start);
    assert_eq!(request, expected_prompt("hi"));
    let start = provider.stream(&model("o4-mini"), "g", &asks("again"));
    let (_, request) = prompt_request(start);
    assert_eq!(request, expected_prompt("again"));
}

#[test]
fn a_turn_fails_with_its_model() {
    let mut provider = provider();
    assert!(provider
        .session_created(Some("g"), Reply::Done(session("a")))
        .is_ok());
    let start = provider.stream(&model("o4-mini"), "g", &asks("hi"));
    let forwarding = match start {
        StreamStart::Forward(forwarding, _) => forwarding,
        _ => panic!("no model is forwarded"),
    };
    let reply = Reply::Failed(AcpError::Message("no such model".into()));
    match forwarding.forwarded(&mut provider, reply) {
        StreamStart::Fail(error) => assert_eq!(
            error,
            ProviderError::RequestFailed("Failed to set model: no such model".into())
        ),
        _ => panic!("the turn goes on"),
    }
    assert_eq!(provider.forward_model("g", "base"), Ok(None));
}

#[test]
fn prompts_that_are_not_taken_fail() {
    let mut provider = provider();
    assert!(provider
        .session_created(Some("g"), Reply::Done(session("a")))
        .is_ok());
    let (prompting, _) = prompt_request(provider.stream(&model("base"), "g", &asks("hi")));
    assert_eq!(
        prompting.sent(false, Some(GooseMode::Auto)),
        Err(ProviderError::RequestFailed(
            "Failed to send ACP prompt: ACP client is unavailable".into()
        ))
    );
    let (prompting, _) = prompt_request(provider.stream(&model("base"), "g", &asks("hi")));
    assert_eq!(
        prompting.sent(true, None),
        Err(ProviderError::RequestFailed(
            "goose_mode lock poisoned".into()
        ))
    );
}

#[test]
fn texts_and_thoughts_go_out() {
    let mut provider = provider();
    let mut stream = streaming(&mut provider, GooseMode::Auto);
    assert_eq!(
        yielded(stream.next(&mut provider, text("2"))),
        Some(Message::said("2".into()))
    );
    assert_eq!(
        yielded(stream.next(&mut provider, Some(AcpUpdate::Thought("hm".into())))),
        Some(Message::thought("hm".into()))
    );
    assert_eq!(yielded(stream.next(&mut provider, started("t"))), None);
    assert_eq!(
        yielded(stream.next(&mut provider, text("result"))),
        Some(Message::said("result".into()))
    );
    assert_eq!(yielded(stream.next(&mut provider, done("t"))), None);
}

#[test]
fn turns_end() {
    let mut provider = provider();
    let mut stream = streaming(&mut provider, GooseMode::Auto);
    let complete = Some(AcpUpdate::Complete(StopReason::EndTurn));
    assert!(matches!(
        stream.next(&mut provider, complete),
        StreamAction::Finish
    ));
    assert!(matches!(
        stream.next(&mut provider, None),
        StreamAction::Finish
    ));
    match stream.next(&mut provider, Some(AcpUpdate::Error("broken".into()))) {
        StreamAction::Fail(error) => {
            assert_eq!(error, ProviderError::RequestFailed("broken".into()))
        }
        _ => panic!("the turn goes on"),
    }
}

#[test]
fn chat_keeps_text_back_once_a_tool_has_started() {
    let mut provider = provider();
    let mut stream = streaming(&mut provider, GooseMode::Chat);
    assert_eq!(
        yielded(stream.next(&mut provider, text("before"))),
        Some(Message::said("before".into()))
    );
    assert_eq!(yielded(stream.next(&mut provider, started("t"))), None);
    assert_eq!(yielded(stream.next(&mut provider, text("result"))), None);
    assert_eq!(
        yielded(stream.next(&mut provider, Some(AcpUpdate::Thought("hm".into())))),
        Some(Message::thought("hm".into()))
    );
    assert_eq!(yielded(stream.next(&mut provider, done("t"))), denied());
    assert_eq!(yielded(stream.next(&mut provider, done("t"))), None);
    assert_eq!(yielded(stream.next(&mut provider, text("after"))), None);
}

#[test]
fn chat_denies_and_auto_permits_without_asking() {
    let mut provider = provider();
    let mut chat = streaming(&mut provider, GooseMode::Chat);
    match chat.next(&mut provider, request("t", 5)) {
        StreamAction::Respond { ticket, decision } => {
            assert_eq!((ticket, decision), (5, PermissionDecision::RejectOnce))
        }
        _ => panic!("no answer"),
    }
    assert_eq!(yielded(chat.next(&mut provider, done("t"))), denied());
    let mut auto = streaming(&mut provider, GooseMode::Auto);
    match auto.next(&mut provider, request("t", 6)) {
        StreamAction::Respond { ticket, decision } => {
            assert_eq!((ticket, decision), (6, PermissionDecision::AllowOnce))
        }
        _ => panic!("no answer"),
    }
    assert_eq!(yielded(auto.next(&mut provider, done("t"))), None);
}

#[test]
fn the_user_is_asked_and_heeded() {
    let cases = [
        (Permission::AlwaysAllow, PermissionDecision::AllowAlways, false),
        (Permission::AllowOnce, PermissionDecision::AllowOnce, false),
        (Permission::AlwaysDeny, PermissionDecision::RejectAlways, true),
        (Permission::DenyOnce, PermissionDecision::RejectOnce, true),
        (Permission::Cancel, PermissionDecision::Cancel, true),
    ];
    for mode in [GooseMode::Approve, GooseMode::SmartApprove] {
        for (permission, decision, is_denied) in cases {
            let mut provider = provider();
            let mut stream = streaming(&mut provider, mode);
            let (asked, message, replaced) =
                question(stream.next(&mut provider, request("call-1", 9)));
            assert_eq!(asked.get_ticket(), 9);
            assert_eq!(replaced, None);
            assert_eq!(
                message,
                Some(Message {
                    role: Role::Assistant,
                    content: vec![MessageContent::ActionRequired {
                        id: "call-1".into(),
                        tool_name: "get_code".into(),
                        arguments: vec![],
                        prompt: None,
                    }],
                    user_visible: true,
                    agent_visible: false,
                })
            );
            let confirmation = answer(permission);
            assert_eq!(
                provider.handle_permission_confirmation("call-1", &confirmation),
                Some((9, confirmation))
            );
            assert_eq!(
                provider.handle_permission_confirmation("call-1", &confirmation),
                None
            );
            assert_eq!(
                asked.confirmed(&mut provider, Some(confirmation)),
                Answer {
                    ticket: 9,
                    decision,
                    dropped: None,
                }
            );
            let said = yielded(stream.next(&mut provider, done("call-1")));
            assert_eq!(said, if is_denied { denied() } else { None });
        }
    }
}

#[test]
fn silence_cancels() {
    let mut provider = provider();
    let mut stream = streaming(&mut provider, GooseMode::Approve);
    let (asked, _, _) = question(stream.next(&mut provider, request("call-1", 3)));
    assert_eq!(
        asked.confirmed(&mut provider, None),
        Answer {
            ticket: 3,
            decision: PermissionDecision::Cancel,
            dropped: Some(3),
        }
    );
    assert_eq!(yielded(stream.next(&mut provider, done("call-1"))), denied());
}

#[test]
fn a_second_question_about_a_tool_call_replaces_the_first() {
    let mut provider = provider();
    let mut stream = streaming(&mut provider, GooseMode::Approve);
    let (first, _, _) = question(stream.next(&mut provider, request("call-1", 1)));
    let (second, _, replaced) = question(stream.next(&mut provider, request("call-1", 2)));
    let (_, _, other) = question(stream.next(&mut provider, request("call-2", 4)));
    assert_eq!((replaced, other), (Some(1), None));
    let confirmation = answer(Permission::AllowOnce);
    assert_eq!(
        provider.handle_permission_confirmation("call-1", &confirmation),
        Some((2, confirmation))
    );
    assert_eq!(
        second.confirmed(&mut provider, Some(confirmation)).decision,
        PermissionDecision::AllowOnce
    );
    assert_eq!(
        first.confirmed(&mut provider, None).decision,
        PermissionDecision::Cancel
    );
    assert_eq!(
        provider.handle_permission_confirmation("call-2", &confirmation),
        Some((4, confirmation))
    );
}
