use acp_provider::json::JsonValue;
use acp_provider::message::{
    build_action_required_message, messages_to_prompt, ContentBlock, Message, MessageContent,
    RequestPermissionRequest, Role, ToolCallContent,
};

fn user(content: Vec<MessageContent>, agent_visible: bool) -> Message {
    Message {
        role: Role::User,
        content,
        user_visible: true,
        agent_visible,
    }
}

fn text(text: &str) -> MessageContent {
    MessageContent::Text(text.to_string())
}

#[test]
fn prompt_is_made_from_the_last_visible_user_message() {
    let messages = vec![
        user(vec![text("first")], true),
        user(
            vec![
                text("Describe what you see in this image"),
                MessageContent::Other,
                MessageContent::Image {
                    data: "aW1n".into(),
                    mime_type: "image/png".into(),
                },
                MessageContent::Thinking {
                    thinking: "hm".into(),
                    signature: String::new(),
                },
            ],
            true,
        ),
        user(vec![text("hidden from the agent")], false),
        Message::said("an answer".into()),
    ];
    assert_eq!(
        messages_to_prompt(&messages),
        vec![
            ContentBlock::Text("Describe what you see in this image".into()),
            ContentBlock::Image {
                data: "aW1n".into(),
                mime_type: "image/png".into(),
            },
        ]
    );
    assert_eq!(
        messages_to_prompt(&messages[..1]),
        vec![ContentBlock::Text("first".into())]
    );
}

#[test]
fn prompt_is_empty_without_a_visible_user_message() {
    assert!(messages_to_prompt(&[]).is_empty());
    let messages = vec![Message::said("hello".into()), user(vec![text("x")], false)];
    assert!(messages_to_prompt(&messages).is_empty());
}

#[test]
fn questions_show_title_arguments_and_first_text() {
    let request = RequestPermissionRequest {
        tool_call_id: "call-1".into(),
        title: Some("shell".into()),
        raw_input: Some(JsonValue::Object(vec![(
            "command".into(),
            JsonValue::String("ls".into()),
        )])),
        content: Some(vec![
            ToolCallContent::Other,
            ToolCallContent::Content(ContentBlock::Image {
                data: "aW1n".into(),
                mime_type: "image/png".into(),
            }),
            ToolCallContent::Content(ContentBlock::Text("May I list?".into())),
            ToolCallContent::Content(ContentBlock::Text("ignored".into())),
        ]),
    };
    assert_eq!(
        build_action_required_message(&request),
        Some(Message {
            role: Role::Assistant,
            content: vec![MessageContent::ActionRequired {
                id: "call-1".into(),
                tool_name: "shell".into(),
                arguments: vec![("command".into(), JsonValue::String("ls".into()))],
                prompt: Some("May I list?".into()),
            }],
            user_visible: true,
            agent_visible: false,
        })
    );
}

#[test]
fn questions_have_defaults() {
    let bare = RequestPermissionRequest {
        tool_call_id: "call-2".into(),
        title: None,
        raw_input: Some(JsonValue::Array(vec![JsonValue::Null])),
        content: Some(vec![ToolCallContent::Other]),
    };
    let expected = Some(Message {
        role: Role::Assistant,
        content: vec![MessageContent::ActionRequired {
            id: "call-2".into(),
            tool_name: "Tool".into(),
            arguments: vec![],
            prompt: None,
        }],
        user_visible: true,
        agent_visible: false,
    });
    assert_eq!(build_action_required_message(&bare), expected);
    let barer = RequestPermissionRequest {
        tool_call_id: "call-2".into(),
        title: None,
        raw_input: None,
        content: None,
    };
    assert_eq!(build_action_required_message(&barer), expected);
}

#[test]
fn messages_are_built_part_by_part() {
    let message = Message::assistant()
        .with_text("a".into())
        .with_thinking("b".into(), "s".into())
        .with_visibility(false, true);
    assert_eq!(
        message,
        Message {
            role: Role::Assistant,
            content: vec![
                text("a"),
                MessageContent::Thinking {
                    thinking: "b".into(),
                    signature: "s".into(),
                },
            ],
            user_visible: false,
            agent_visible: true,
        }
    );
    let thought = Message::thought("hm".into());
    assert!(thought.user_visible && !thought.agent_visible);
    assert!(!thought.prompts());
}
