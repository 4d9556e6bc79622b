use acp_provider::deep::DeepClone;
use acp_provider::json::JsonValue;
use acp_provider::mode::{
    GooseMode, ModeMapping, Permission, PermissionConfirmation, PermissionRouting, PrincipalType,
};
use acp_provider::protocol::{AcpError, ProviderError, Reply, RpcError};
use acp_provider::provider::{AcpProvider, AcpProviderConfig, ModeUpdate, ModelConfig};
use acp_provider::request::ClientRequest;
use acp_provider::servers::{EnvVariable, McpServer, McpServerStdio};
use acp_provider::session::{
    ListSessionsResponse, NewSessionResponse, SessionConfigOption, SessionConfigOptionCategory,
    SessionInfo,
};

fn config() -> AcpProviderConfig {
    AcpProviderConfig {
        command: "agent".into(),
        args: vec![],
        env: vec![],
        env_remove: vec![],
        work_dir: "/work".into(),
        mcp_servers: vec![],
        session_mode_id: None,
        mode_mapping: ModeMapping {
            auto: Some("bypass".into()),
            approve: Some("default".into()),
            smart_approve: None,
            chat: Some("plan".into()),
        },
    }
}

fn model(name: &str) -> ModelConfig {
    ModelConfig {
        model_name: name.to_string(),
    }
}

fn provider() -> AcpProvider {
    match AcpProvider::connect("acp".into(), model("base"), &config(), Reply::Done(vec![])) {
        Ok(provider) => provider,
        Err(error) => panic!("{:?}", error),
    }
}

fn session(id: &str) -> NewSessionResponse {
    NewSessionResponse {
        session_id: id.to_string(),
        modes: None,
        model_ids: None,
        config_options: None,
        answer: JsonValue::Null,
    }
}

fn session_with_options(id: &str) -> NewSessionResponse {
    NewSessionResponse {
        config_options: Some(vec![
            SessionConfigOption {
                category: Some(SessionConfigOptionCategory::Mode),
                selected: Some("auto".into()),
            },
            SessionConfigOption {
                category: Some(SessionConfigOptionCategory::Model),
                selected: None,
            },
        ]),
        ..session(id)
    }
}

fn new_session(stored_mode_id: Option<&str>) -> ClientRequest {
    ClientRequest::NewSession {
        stored_mode_id: stored_mode_id.map(str::to_string),
    }
}

fn message(text: &str) -> AcpError {
    AcpError::Message(text.to_string())
}

fn not_found(goose_id: &str) -> AcpError {
    AcpError::Rpc(RpcError {
        code: -32602,
        message: "Invalid params".into(),
        data: Some(JsonValue::String(format!("Session not found: {goose_id}"))),
        text: format!("Invalid params: \"Session not found: {goose_id}\""),
    })
}

#[test]
fn connecting_gives_a_provider_without_sessions() {
    let methods = vec![sacp::schema::AuthMethod::Agent(
        sacp::schema::AuthMethodAgent::new("goose-provider", "Configure"),
    )];
    let provider = match AcpProvider::connect_with_transport(
        "acp".into(),
        model("base"),
        &config(),
        Reply::Done(methods.clone()),
    ) {
        Ok(provider) => provider,
        Err(error) => panic!("{:?}", error),
    };
    assert_eq!(provider.auth_methods(), &methods[..]);
    assert_eq!(provider.get_name(), "acp");
    assert_eq!(provider.get_model_config(), model("base"));
    assert_eq!(provider.permission_routing(), PermissionRouting::ActionRequired);
    assert!(!provider.has_session("g"));
    assert!(provider.maps_mode(GooseMode::Chat));
    assert!(!provider.maps_mode(GooseMode::SmartApprove));
}

#[test]
fn connecting_fails_with_the_initialization() {
    let lost = AcpProvider::connect("acp".into(), model("m"), &config(), Reply::Cancelled);
    assert_eq!(
        lost.err(),
        Some(message("ACP client initialization cancelled"))
    );
    let failed = AcpProvider::connect(
        "acp".into(),
        model("m"),
        &config(),
        Reply::Failed(message("ACP initialize failed: no")),
    );
    assert_eq!(failed.err(), Some(message("ACP initialize failed: no")));
}

#[test]
fn replies_settle() {
    assert_eq!(
        AcpProvider::new_session_done(Reply::Cancelled),
        Err(message("ACP session/new cancelled"))
    );
    assert_eq!(
        AcpProvider::new_session_done(Reply::Unavailable),
        Err(message("ACP client is unavailable"))
    );
    assert_eq!(
        AcpProvider::new_session_done(Reply::Done(session("a"))),
        Ok(session("a"))
    );
    assert_eq!(
        AcpProvider::request_done::<()>(Reply::Cancelled),
        Err(message("ACP request cancelled"))
    );
    let refusal = AcpError::Rpc(RpcError::invalid_params("Invalid mode: not_a_mode".into()));
    let same = AcpError::Rpc(RpcError::invalid_params("Invalid mode: not_a_mode".into()));
    assert_eq!(
        AcpProvider::request_done::<()>(Reply::Failed(refusal)),
        Err(same)
    );
    assert_eq!(
        AcpProvider::delete_session_done(Reply::Done(JsonValue::Bool(true))),
        Ok(())
    );
    assert_eq!(Reply::received(Some(Ok(7))), Reply::Done(7));
    assert_eq!(
        Reply::<u8>::received(Some(Err(message("x")))),
        Reply::Failed(message("x"))
    );
    assert_eq!(Reply::<u8>::received(None), Reply::Cancelled);
}

#[test]
fn sessions_are_created_once_and_found_again() {
    let mut provider = provider();
    assert_eq!(provider.ensure_session(Some("g")), None);
    assert_eq!(
        provider.session_created(Some("g"), Reply::Done(session("a"))),
        Ok(session("a"))
    );
    assert_eq!(provider.ensure_session(Some("g")), Some(session("a")));
    assert!(provider.has_session("g"));
    assert!(!provider.has_session("h"));
    assert_eq!(provider.resolve_acp_session_id("g"), Ok("a".to_string()));
    assert_eq!(provider.new_session(), new_session(None));
}

#[test]
fn sessions_of_nobody_are_not_kept() {
    let mut provider = provider();
    assert_eq!(
        provider.session_created(None, Reply::Done(session("a"))),
        Ok(session("a"))
    );
    assert_eq!(provider.ensure_session(None), None);
    assert!(!provider.has_session("a"));
    let listed = provider
        .list_sessions_done(Reply::Done(ListSessionsResponse::new(vec![listed_info("a")])));
    assert_eq!(listed, Ok(ListSessionsResponse::new(vec![])));
}

#[test]
fn failed_creation_changes_nothing() {
    let mut provider = provider();
    assert_eq!(
        provider.session_created(Some("g"), Reply::Failed(message("boom"))),
        Err(ProviderError::RequestFailed(
            "Failed to create ACP session: boom".into()
        ))
    );
    assert_eq!(
        provider.session_created(Some("g"), Reply::Cancelled),
        Err(ProviderError::RequestFailed(
            "Failed to create ACP session: ACP session/new cancelled".into()
        ))
    );
    assert!(!provider.has_session("g"));
}

fn listed_info(id: &str) -> SessionInfo {
    SessionInfo {
        session_id: id.to_string(),
        cwd: "/work".into(),
        additional_directories: vec![],
        title: Some("ACP Session".into()),
        updated_at: None,
        meta: None,
    }
}

#[test]
fn established_sessions_are_listed_under_their_goose_ids() {
    let mut provider = provider();
    assert!(provider
        .session_created(Some("g"), Reply::Done(session("a")))
        .is_ok());
    let listed = provider.list_sessions_done(Reply::Done(ListSessionsResponse::new(vec![
        listed_info("b"),
        listed_info("a"),
    ])));
    assert_eq!(listed, Ok(ListSessionsResponse::new(vec![listed_info("g")])));
    assert_eq!(
        provider.list_sessions_done(Reply::Cancelled),
        Err(message("ACP request cancelled"))
    );
    assert_eq!(AcpProvider::list_sessions(), ClientRequest::ListSessions);
}

#[test]
fn unknown_sessions_are_refused() {
    let provider = provider();
    let id = "nonexistent-session-id";
    assert_eq!(provider.resolve_acp_session_id(id), Err(not_found(id)));
    assert_eq!(
        provider.send_set_mode(id, "auto".into()),
        Err(not_found(id))
    );
    assert_eq!(
        provider.send_set_model(id, "o4-mini".into()),
        Err(not_found(id))
    );
    assert_eq!(
        provider.send_set_config_option(id, "mode".into(), "auto".into()),
        Err(not_found(id))
    );
    assert_eq!(provider.delete_session(id), Err(not_found(id)));
    assert!(!provider.session_has_config_option(id, &SessionConfigOptionCategory::Mode));
}

#[test]
fn requests_name_the_agents_session() {
    let mut provider = provider();
    assert!(provider
        .session_created(Some("g"), Reply::Done(session("a")))
        .is_ok());
    assert_eq!(
        provider.send_set_mode("g", "plan".into()),
        Ok(ClientRequest::SetMode {
            session_id: "a".into(),
            mode_id: "plan".into(),
        })
    );
    assert_eq!(
        provider.send_set_model("g", "o4-mini".into()),
        Ok(ClientRequest::SetModel {
            session_id: "a".into(),
            model_id: "o4-mini".into(),
        })
    );
    assert_eq!(
        provider.send_set_config_option("g", "thought_level".into(), "high".into()),
        Ok(ClientRequest::SetConfigOption {
            session_id: "a".into(),
            config_id: "thought_level".into(),
            value: "high".into(),
        })
    );
    assert_eq!(
        provider.delete_session("g"),
        Ok(ClientRequest::Untyped {
            method: "session/delete".into(),
            params: JsonValue::Object(vec![(
                "session_id".into(),
                JsonValue::String("a".into())
            )]),
        })
    );
    assert_eq!(
        AcpProvider::send_untyped("x/y", JsonValue::Null),
        ClientRequest::Untyped {
            method: "x/y".into(),
            params: JsonValue::Null,
        }
    );
}

#[test]
fn requests_know_their_methods() {
    let id = || "a".to_string();
    let cases = vec![
        (new_session(Some("plan")), "session/new"),
        (ClientRequest::ListSessions, "session/list"),
        (
            ClientRequest::SetMode {
                session_id: id(),
                mode_id: id(),
            },
            "session/set_mode",
        ),
        (
            ClientRequest::SetModel {
                session_id: id(),
                model_id: id(),
            },
            "session/set_model",
        ),
        (
            ClientRequest::SetConfigOption {
                session_id: id(),
                config_id: id(),
                value: id(),
            },
            "session/set_config_option",
        ),
        (AcpProvider::prompt(id(), vec![]), "session/prompt"),
        (
            AcpProvider::send_untyped("session/delete", JsonValue::Null),
            "session/delete",
        ),
    ];
    for (request, method) in cases {
        assert_eq!(request.method(), method);
    }
}

#[test]
fn mode_is_only_stored_before_the_first_session() {
    let mut provider = provider();
    assert_eq!(
        provider.update_mode("g", GooseMode::SmartApprove),
        Ok(ModeUpdate::Store)
    );
    assert_eq!(
        provider.store_mode(true, GooseMode::Chat),
        Ok(GooseMode::Chat)
    );
    assert_eq!(
        provider.store_mode(false, GooseMode::Chat),
        Err(ProviderError::RequestFailed("Failed to update mode".into()))
    );
}

#[test]
fn mode_goes_by_the_method_without_options() {
    let mut provider = provider();
    assert!(provider
        .session_created(Some("g"), Reply::Done(session("a")))
        .is_ok());
    assert_eq!(
        provider.update_mode("g", GooseMode::Auto),
        Ok(ModeUpdate::Send(ClientRequest::SetMode {
            session_id: "a".into(),
            mode_id: "bypass".into(),
        }))
    );
    assert_eq!(
        provider.update_mode("h", GooseMode::Auto),
        Err(ProviderError::RequestFailed(
            "Failed to set mode: Invalid params: \"Session not found: h\"".into()
        ))
    );
}

#[test]
fn mode_goes_by_the_option_where_it_is_advertised() {
    let mut provider = provider();
    assert!(provider
        .session_created(Some("g"), Reply::Done(session_with_options("a")))
        .is_ok());
    assert!(provider.session_has_config_option("g", &SessionConfigOptionCategory::Mode));
    assert_eq!(
        provider.update_mode("g", GooseMode::Chat),
        Ok(ModeUpdate::Send(ClientRequest::SetConfigOption {
            session_id: "a".into(),
            config_id: "mode".into(),
            value: "plan".into(),
        }))
    );
    assert_eq!(AcpProvider::update_mode_done(Reply::Done(())), Ok(()));
    assert_eq!(
        AcpProvider::update_mode_done(Reply::Cancelled),
        Err(ProviderError::RequestFailed(
            "Failed to set mode: ACP request cancelled".into()
        ))
    );
}

#[test]
fn models_are_forwarded_once_and_per_session() {
    let mut provider = provider();
    for (goose_id, acp_id) in [("g", "a"), ("h", "b")] {
        assert!(provider
            .session_created(Some(goose_id), Reply::Done(session(acp_id)))
            .is_ok());
    }
    assert_eq!(provider.forward_model("g", "base"), Ok(None));
    assert_eq!(
        provider.forward_model("g", "o4-mini"),
        Ok(Some(ClientRequest::SetModel {
            session_id: "a".into(),
            model_id: "o4-mini".into(),
        }))
    );
    assert_eq!(
        provider.model_forwarded("g", "o4-mini", Reply::Unavailable),
        Err(ProviderError::RequestFailed(
            "Failed to set model: ACP client is unavailable".into()
        ))
    );
    assert_eq!(provider.forward_model("g", "base"), Ok(None));
    assert_eq!(
        provider.model_forwarded("g", "o4-mini", Reply::Done(())),
        Ok(())
    );
    assert_eq!(provider.forward_model("g", "o4-mini"), Ok(None));
    assert_eq!(provider.forward_model("h", "base"), Ok(None));
    assert!(matches!(provider.forward_model("g", "base"), Ok(Some(_))));
    assert_eq!(
        provider.forward_model("nobody", "base"),
        Err(ProviderError::RequestFailed(
            "Failed to set model: Invalid params: \"Session not found: nobody\"".into()
        ))
    );
}

#[test]
fn model_goes_by_the_option_where_it_is_advertised() {
    let mut provider = provider();
    assert!(provider
        .session_created(Some("g"), Reply::Done(session_with_options("a")))
        .is_ok());
    assert_eq!(
        provider.forward_model("g", "o4-mini"),
        Ok(Some(ClientRequest::SetConfigOption {
            session_id: "a".into(),
            config_id: "model".into(),
            value: "o4-mini".into(),
        }))
    );
}

#[test]
fn a_model_told_before_the_session_was_made_again_stays() {
    let mut provider = provider();
    assert!(provider
        .session_created(Some("g"), Reply::Done(session("a")))
        .is_ok());
    assert!(provider
        .model_forwarded("g", "o4-mini", Reply::Done(()))
        .is_ok());
    assert!(provider
        .session_created(Some("g"), Reply::Done(session("c")))
        .is_ok());
    assert_eq!(provider.forward_model("g", "o4-mini"), Ok(None));
    assert_eq!(provider.resolve_acp_session_id("g"), Ok("c".to_string()));
}

#[test]
fn supported_models_come_from_a_session_of_nobody() {
    let mut provider = provider();
    assert_eq!(
        provider.fetch_supported_models(),
        new_session(None)
    );
    let offering = NewSessionResponse {
        model_ids: Some(vec!["m1".into(), "m2".into()]),
        ..session("a")
    };
    assert_eq!(
        provider.fetch_supported_models_done(Reply::Done(offering)),
        Ok(vec!["m1".to_string(), "m2".to_string()])
    );
    assert_eq!(
        provider.fetch_supported_models_done(Reply::Done(session("a"))),
        Ok(vec![])
    );
    assert_eq!(
        provider.fetch_supported_models_done(Reply::Failed(message("no"))),
        Err(ProviderError::RequestFailed(
            "Failed to create ACP session: no".into()
        ))
    );
    assert!(!provider.has_session("a"));
}

#[test]
fn answers_to_nobody_are_not_delivered() {
    let mut provider = provider();
    let confirmation = PermissionConfirmation {
        principal_type: PrincipalType::Tool,
        permission: Permission::AllowOnce,
    };
    assert_eq!(
        provider.handle_permission_confirmation("call-1", &confirmation),
        None
    );
}

#[test]
fn configurations_are_copied_whole() {
    let mut config = config();
    config.env = vec![("A".into(), "1".into())];
    config.env_remove = vec!["B".into()];
    config.session_mode_id = Some("plan".into());
    config.mcp_servers = vec![McpServer::Stdio(McpServerStdio {
        name: "n".into(),
        command: "c".into(),
        args: vec!["a".into()],
        env: vec![EnvVariable {
            name: "k".into(),
            value: "v".into(),
            meta: Some(JsonValue::Null),
        }],
        meta: None,
    })];
    assert_eq!(config.deep_clone(), config);
}

#[test]
fn a_mode_stored_before_the_first_session_is_read_when_sessions_are_created() {
    let mut provider = provider();
    assert_eq!(
        provider.update_mode("g", GooseMode::Chat),
        Ok(ModeUpdate::Store)
    );
    assert_eq!(
        provider.store_mode(true, GooseMode::Chat),
        Ok(GooseMode::Chat)
    );
    assert_eq!(provider.ensure_session(Some("g")), None);
    assert_eq!(provider.new_session(), new_session(Some("plan")));
    assert_eq!(provider.fetch_supported_models(), new_session(Some("plan")));
    assert!(provider
        .session_created(Some("g"), Reply::Done(session("a")))
        .is_ok());
    assert_eq!(provider.new_session(), new_session(Some("plan")));
    assert_eq!(
        provider.store_mode(true, GooseMode::Auto),
        Ok(GooseMode::Auto)
    );
    assert_eq!(provider.new_session(), new_session(None));
}

#[test]
fn a_mode_that_was_not_stored_or_has_no_name_is_not_read() {
    let mut provider = provider();
    assert!(provider.store_mode(false, GooseMode::Chat).is_err());
    assert_eq!(provider.new_session(), new_session(None));
    assert!(provider.store_mode(true, GooseMode::SmartApprove).is_ok());
    assert_eq!(provider.new_session(), new_session(None));
}

#[test]
fn sessions_that_the_agent_no_longer_lists_are_not_listed() {
    let mut provider = provider();
    for (goose_id, acp_id) in [("g", "a"), ("h", "b")] {
        assert!(provider
            .session_created(Some(goose_id), Reply::Done(session(acp_id)))
            .is_ok());
    }
    let listed = |ids: &[&str]| {
        Reply::Done(ListSessionsResponse::new(
            ids.iter().map(|id| listed_info(id)).collect(),
        ))
    };
    assert_eq!(
        provider.list_sessions_done(listed(&["a", "b"])),
        Ok(ListSessionsResponse::new(vec![
            listed_info("g"),
            listed_info("h")
        ]))
    );
    assert!(provider.delete_session("g").is_ok());
    assert_eq!(
        provider.list_sessions_done(listed(&["b"])),
        Ok(ListSessionsResponse::new(vec![listed_info("h")]))
    );
}

#[test]
fn an_announced_mode_takes_the_place_of_the_stored_one() {
    let mut provider = provider();
    provider.mode_announced(GooseMode::Auto);
    assert_eq!(provider.new_session(), new_session(None));
    assert!(provider.store_mode(true, GooseMode::Chat).is_ok());
    provider.mode_announced(GooseMode::Chat);
    assert_eq!(provider.new_session(), new_session(Some("plan")));
    assert!(provider
        .session_created(Some("g"), Reply::Done(session("a")))
        .is_ok());
    provider.mode_announced(GooseMode::Approve);
    assert_eq!(provider.new_session(), new_session(Some("default")));
    provider.mode_announced(GooseMode::SmartApprove);
    assert_eq!(provider.new_session(), new_session(None));
    provider.mode_announced(GooseMode::Auto);
    assert_eq!(provider.new_session(), new_session(Some("bypass")));
    assert!(provider.store_mode(true, GooseMode::Chat).is_ok());
    provider.mode_announced(GooseMode::Auto);
    assert_eq!(provider.new_session(), new_session(None));
}
