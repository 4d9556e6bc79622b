use acp_provider::deep::DeepClone;
use acp_provider::json::JsonValue;
use acp_provider::session::{
    map_sessions_to_goose_ids, GooseIds, ListSessionsResponse, NewSessionResponse,
    SessionConfigOption, SessionConfigOptionCategory, SessionInfo, SessionModeState,
};

fn info(id: &str, cwd: &str, title: &str, updated_at: Option<&str>) -> SessionInfo {
    SessionInfo {
        session_id: id.to_string(),
        cwd: cwd.to_string(),
        additional_directories: vec![],
        title: Some(title.to_string()),
        updated_at: updated_at.map(str::to_string),
        meta: None,
    }
}

fn ids(pairs: &[(&str, &str)]) -> GooseIds {
    let mut ids = GooseIds::new();
    for (acp_id, goose_id) in pairs {
        ids.insert(acp_id.to_string(), goose_id.to_string());
    }
    ids
}

#[test]
fn test_map_sessions_to_goose_ids_all_sessions_mapped_with_all_fields_preserved() {
    let response = ListSessionsResponse::new(vec![
        info(
            "20260318_1",
            "/Users/codefromthecrypt/oss/goose-2",
            "Fix login bug",
            Some("2026-03-18T07:02:42.549655Z"),
        ),
        info(
            "20260318_2",
            "/tmp/test-acpx",
            "Add caching layer",
            Some("2026-03-18T07:05:01.123Z"),
        ),
    ]);
    let acp_to_goose = ids(&[
        ("20260318_1", "goose-session-1"),
        ("20260318_2", "goose-session-2"),
    ]);
    let expected = ListSessionsResponse::new(vec![
        info(
            "goose-session-1",
            "/Users/codefromthecrypt/oss/goose-2",
            "Fix login bug",
            Some("2026-03-18T07:02:42.549655Z"),
        ),
        info(
            "goose-session-2",
            "/tmp/test-acpx",
            "Add caching layer",
            Some("2026-03-18T07:05:01.123Z"),
        ),
    ]);
    assert_eq!(map_sessions_to_goose_ids(response, &acp_to_goose), expected);
}

#[test]
fn test_map_sessions_to_goose_ids_unmapped_sessions_filtered_out() {
    let response = ListSessionsResponse::new(vec![
        info(
            "20260318_1",
            "/Users/codefromthecrypt/oss/goose-2",
            "Fix login bug",
            None,
        ),
        info("other-agent-session", "/tmp/other", "Not our session", None),
    ]);
    let acp_to_goose = ids(&[("20260318_1", "goose-session-1")]);
    let expected = ListSessionsResponse::new(vec![info(
        "goose-session-1",
        "/Users/codefromthecrypt/oss/goose-2",
        "Fix login bug",
        None,
    )]);
    assert_eq!(map_sessions_to_goose_ids(response, &acp_to_goose), expected);
}

#[test]
fn test_map_sessions_to_goose_ids_empty_map_returns_empty_list() {
    let response = ListSessionsResponse::new(vec![info(
        "20260318_1",
        "/Users/codefromthecrypt/oss/goose-2",
        "ACP Session",
        Some("2026-03-18T01:29:02.141700Z"),
    )]);
    assert_eq!(
        map_sessions_to_goose_ids(response, &GooseIds::new()),
        ListSessionsResponse::new(vec![])
    );
}

#[test]
fn mapping_drops_the_cursor_and_keeps_the_rest_of_an_entry() {
    let entry = SessionInfo {
        session_id: "a".into(),
        cwd: "/w".into(),
        additional_directories: vec!["/x".into(), "/y".into()],
        title: None,
        updated_at: None,
        meta: Some(JsonValue::Object(vec![("k".into(), JsonValue::Bool(true))])),
    };
    let response = ListSessionsResponse {
        sessions: vec![entry],
        next_cursor: Some("more".into()),
        meta: Some(JsonValue::Null),
    };
    let mapped = map_sessions_to_goose_ids(response, &ids(&[("a", "g")]));
    assert_eq!(
        mapped,
        ListSessionsResponse {
            sessions: vec![SessionInfo {
                session_id: "g".into(),
                cwd: "/w".into(),
                additional_directories: vec!["/x".into(), "/y".into()],
                title: None,
                updated_at: None,
                meta: Some(JsonValue::Object(vec![("k".into(), JsonValue::Bool(true))])),
            }],
            next_cursor: None,
            meta: None,
        }
    );
}

#[test]
fn the_last_id_given_to_a_session_counts() {
    let mut known = ids(&[("a", "first")]);
    known.insert("a".into(), "second".into());
    assert_eq!(known.get("a"), Some(&"second".to_string()));
    assert_eq!(known.get("b"), None);
}

fn option(category: Option<SessionConfigOptionCategory>) -> SessionConfigOption {
    SessionConfigOption {
        category,
        selected: None,
    }
}

#[test]
fn options_are_found_by_category() {
    let session = NewSessionResponse {
        session_id: "a".into(),
        modes: None,
        model_ids: None,
        config_options: Some(vec![
            option(None),
            option(Some(SessionConfigOptionCategory::Other("mine".into()))),
            option(Some(SessionConfigOptionCategory::Model)),
        ]),
        answer: JsonValue::Null,
    };
    assert!(session.has_config_option(&SessionConfigOptionCategory::Model));
    assert!(session.has_config_option(&SessionConfigOptionCategory::Other("mine".into())));
    assert!(!session.has_config_option(&SessionConfigOptionCategory::Other("yours".into())));
    assert!(!session.has_config_option(&SessionConfigOptionCategory::Mode));
    assert!(!session.has_config_option(&SessionConfigOptionCategory::ThoughtLevel));
}

#[test]
fn sessions_are_copied_whole() {
    let session = NewSessionResponse {
        session_id: "a".into(),
        modes: Some(SessionModeState {
            current_mode_id: "auto".into(),
            available_mode_ids: vec!["auto".into(), "chat".into()],
        }),
        model_ids: Some(vec!["m".into()]),
        config_options: Some(vec![SessionConfigOption {
            category: Some(SessionConfigOptionCategory::Mode),
            selected: Some("auto".into()),
        }]),
        answer: JsonValue::Array(vec![
            JsonValue::Null,
            JsonValue::Number("1.5".into()),
            JsonValue::Object(vec![("s".into(), JsonValue::String("t".into()))]),
        ]),
    };
    assert_eq!(session.deep_clone(), session);
    assert_eq!(session.into_models(), vec!["m".to_string()]);
}

#[test]
fn only_objects_have_members() {
    let members = vec![("k".to_string(), JsonValue::Bool(false))];
    assert_eq!(
        JsonValue::Object(vec![("k".to_string(), JsonValue::Bool(false))]).as_object(),
        Some(members)
    );
    assert_eq!(JsonValue::Array(vec![]).as_object(), None);
    assert_eq!(JsonValue::Null.as_object(), None);
}
