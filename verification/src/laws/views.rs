//! What a value stands for holds all that the value holds.
use vstd::prelude::*;

use crate::client_loop::{AgentCall, AgentCallView, ModeStep, ModeStepView};
use crate::json::{JsonValue, JsonView};
use crate::message::{
    BlockView, ContentBlock, ContentView, Message, MessageContent, RequestPermissionRequest,
    ToolCallContent, ToolContentView,
};
use crate::process::{EnvChange, EnvChangeView};
use crate::provider::{AcpProviderConfig, ModelConfig};
use crate::request::{ClientRequest, RequestView};
use crate::servers::{EnvVariable, HttpHeader, McpServer, McpServerView};
use crate::session::{
    CategoryView, NewSessionResponse, SessionConfigOption, SessionConfigOptionCategory,
    SessionInfo, SessionModeState,
};
use crate::stream::{AcpUpdate, ActionView, StartView, StreamAction, StreamStart, UpdateView};
use crate::update::{SessionUpdate, SessionUpdateView};

verus! {

/// A JSON value stands for the same kind of value, an array for as many items, an object for
/// as many members under the same names, each in its place.
pub proof fn json_values_stand_for_all(value: JsonValue)
    ensures
        match value {
            JsonValue::Null => value.deep_view() is Null,
            JsonValue::Bool(own) => value.deep_view() == JsonView::Bool(own),
            JsonValue::Number(text) => value.deep_view() == JsonView::Number(text@),
            JsonValue::String(text) => value.deep_view() == JsonView::String(text@),
            JsonValue::Array(items) => value.deep_view() matches JsonView::Array(views)
                && views.len() == items@.len() && forall|i: int|
                0 <= i < items@.len() ==> #[trigger] views[i] == items@[i].deep_view(),
            JsonValue::Object(members) => value.deep_view() matches JsonView::Object(views)
                && views.len() == members@.len() && forall|i: int|
                0 <= i < members@.len() ==> (#[trigger] views[i]).0 == members@[i].0@ && views[i].1
                    == members@[i].1.deep_view(),
        },
        value.deep_view() matches JsonView::Object(views) ==> value.deep_view().members() == Some(
            views,
        ),
        !(value.deep_view() is Object) ==> value.deep_view().members() is None,
{
}

/// A part of a message stands for all that it holds.
pub proof fn message_parts_stand_for_all(content: MessageContent)
    ensures
        match content {
            MessageContent::Text(text) => content.deep_view() == ContentView::Text(text@),
            MessageContent::Image { data, mime_type } => content.deep_view() == (
            ContentView::Image { data: data@, mime_type: mime_type@ }),
            MessageContent::Thinking { thinking, signature } => content.deep_view() == (
            ContentView::Thinking { thinking: thinking@, signature: signature@ }),
            MessageContent::ActionRequired { id, tool_name, arguments, prompt } =>
                content.deep_view() == (ContentView::ActionRequired {
                id: id@,
                tool_name: tool_name@,
                arguments: arguments.deep_view(),
                prompt: prompt.deep_view(),
            }),
            MessageContent::Other => content.deep_view() is Other,
        },
{
}

/// A message stands for its role, its parts in order and who sees it.
pub proof fn messages_stand_for_all(message: Message)
    ensures
        message.deep_view().role == message.role,
        message.deep_view().content.len() == message.content@.len(),
        forall|i: int|
            0 <= i < message.content@.len() ==> #[trigger] message.deep_view().content[i]
                == message.content@[i].deep_view(),
        message.deep_view().user_visible == message.user_visible,
        message.deep_view().agent_visible == message.agent_visible,
{
}

/// A block of a prompt, and a part of what a tool call shows, stand for all that they hold.
pub proof fn blocks_stand_for_all(block: ContentBlock, part: ToolCallContent)
    ensures
        match block {
            ContentBlock::Text(text) => block.deep_view() == BlockView::Text(text@),
            ContentBlock::Image { data, mime_type } => block.deep_view() == (BlockView::Image {
                data: data@,
                mime_type: mime_type@,
            }),
            ContentBlock::Other(value) => block.deep_view() == BlockView::Other(value.deep_view()),
        },
        match part {
            ToolCallContent::Content(own) => part.deep_view() == ToolContentView::Content(
                own.deep_view(),
            ),
            ToolCallContent::Other => part.deep_view() is Other,
        },
{
}

/// A request for permission stands for its tool call and all that is said of it.
pub proof fn permission_requests_stand_for_all(request: RequestPermissionRequest)
    ensures
        request.deep_view().tool_call_id == request.tool_call_id@,
        request.deep_view().title == request.title.deep_view(),
        request.deep_view().raw_input == request.raw_input.deep_view(),
        request.deep_view().content == request.content.deep_view(),
{
}

/// A header and a variable stand for their name, their value and what more is said of them.
pub proof fn settings_stand_for_all(header: HttpHeader, variable: EnvVariable)
    ensures
        header.deep_view().name == header.name@,
        header.deep_view().value == header.value@,
        header.deep_view().meta == header.meta.deep_view(),
        variable.deep_view().name == variable.name@,
        variable.deep_view().value == variable.value@,
        variable.deep_view().meta == variable.meta.deep_view(),
{
}

/// A server stands for its kind and all that it holds.
pub proof fn servers_stand_for_all(server: McpServer)
    ensures
        match server {
            McpServer::Http(own) => server.deep_view() == (McpServerView::Http {
                name: own.name@,
                url: own.url@,
                headers: own.headers.deep_view(),
                meta: own.meta.deep_view(),
            }),
            McpServer::Sse(own) => server.deep_view() == (McpServerView::Sse {
                name: own.name@,
                url: own.url@,
                headers: own.headers.deep_view(),
                meta: own.meta.deep_view(),
            }),
            McpServer::Stdio(own) => server.deep_view() == (McpServerView::Stdio {
                name: own.name@,
                command: own.command@,
                args: own.args.deep_view(),
                env: own.env.deep_view(),
                meta: own.meta.deep_view(),
            }),
        },
{
}

/// An option of a session stands for its category and what is selected.
pub proof fn options_stand_for_all(
    option: SessionConfigOption,
    category: SessionConfigOptionCategory,
)
    ensures
        option.deep_view().category == option.category.deep_view(),
        option.deep_view().selected == option.selected.deep_view(),
        match category {
            SessionConfigOptionCategory::Mode => category.deep_view() is Mode,
            SessionConfigOptionCategory::Model => category.deep_view() is Model,
            SessionConfigOptionCategory::ThoughtLevel => category.deep_view() is ThoughtLevel,
            SessionConfigOptionCategory::Other(name) => category.deep_view()
                == CategoryView::Other(name@),
        },
{
}

/// A new session stands for its id, its modes, its models, its options and the answer that it
/// came with.
pub proof fn sessions_stand_for_all(session: NewSessionResponse, modes: SessionModeState)
    ensures
        session.deep_view().session_id == session.session_id@,
        session.deep_view().modes == session.modes.deep_view(),
        session.deep_view().model_ids == session.model_ids.deep_view(),
        session.deep_view().config_options == session.config_options.deep_view(),
        session.deep_view().answer == session.answer.deep_view(),
        modes.deep_view().current == modes.current_mode_id@,
        modes.deep_view().available == modes.available_mode_ids.deep_view(),
{
}

/// An entry of the agent's list stands for all that the agent says of the session.
pub proof fn entries_stand_for_all(info: SessionInfo)
    ensures
        info.deep_view().session_id == info.session_id@,
        info.deep_view().cwd == info.cwd@,
        info.deep_view().additional_directories == info.additional_directories.deep_view(),
        info.deep_view().title == info.title.deep_view(),
        info.deep_view().updated_at == info.updated_at.deep_view(),
        info.deep_view().meta == info.meta.deep_view(),
{
}

/// A request stands for its kind and all that it holds.
pub proof fn requests_stand_for_all(request: ClientRequest)
    ensures
        match request {
            ClientRequest::NewSession { stored_mode_id } => request.deep_view() == (
            RequestView::NewSession { stored_mode_id: stored_mode_id.deep_view() }),
            ClientRequest::ListSessions => request.deep_view() is ListSessions,
            ClientRequest::SetMode { session_id, mode_id } => request.deep_view() == (
            RequestView::SetMode { session_id: session_id@, mode_id: mode_id@ }),
            ClientRequest::SetModel { session_id, model_id } => request.deep_view() == (
            RequestView::SetModel { session_id: session_id@, model_id: model_id@ }),
            ClientRequest::SetConfigOption { session_id, config_id, value } =>
                request.deep_view() == (RequestView::SetConfigOption {
                session_id: session_id@,
                config_id: config_id@,
                value: value@,
            }),
            ClientRequest::Prompt { session_id, content } => request.deep_view() == (
            RequestView::Prompt { session_id: session_id@, content: content.deep_view() }),
            ClientRequest::Untyped { method, params } => request.deep_view() == (
            RequestView::Untyped { method: method@, params: params.deep_view() }),
        },
{
}

/// A call of the agent stands for its kind and all that it holds.
pub proof fn calls_stand_for_all(call: AgentCall)
    ensures
        match call {
            AgentCall::NewSession { cwd, mcp_servers, stored_mode_id } => call.deep_view() == (
            AgentCallView::NewSession {
                cwd: cwd@,
                mcp_servers: mcp_servers.deep_view(),
                stored_mode_id: stored_mode_id.deep_view(),
            }),
            AgentCall::ListSessions => call.deep_view() is ListSessions,
            AgentCall::SetMode { session_id, mode_id } => call.deep_view() == (
            AgentCallView::SetMode { session_id: session_id@, mode_id: mode_id@ }),
            AgentCall::SetModel { session_id, model_id } => call.deep_view() == (
            AgentCallView::SetModel { session_id: session_id@, model_id: model_id@ }),
            AgentCall::SetConfigOption { session_id, config_id, value } => call.deep_view() == (
            AgentCallView::SetConfigOption {
                session_id: session_id@,
                config_id: config_id@,
                value: value@,
            }),
            AgentCall::Prompt { session_id, content } => call.deep_view() == (
            AgentCallView::Prompt { session_id: session_id@, content: content.deep_view() }),
            AgentCall::Untyped { method, params } => call.deep_view() == (
            AgentCallView::Untyped { method: method@, params: params.deep_view() }),
        },
{
}

/// What is to be done about a mode, and a change to an environment, stand for all that they
/// hold.
pub proof fn steps_stand_for_all(step: ModeStep, change: EnvChange)
    ensures
        match step {
            ModeStep::Keep => step.deep_view() is Keep,
            ModeStep::Change(mode_id) => step.deep_view() == ModeStepView::Change(mode_id@),
            ModeStep::Refuse(text) => step.deep_view() == ModeStepView::Refuse(text@),
        },
        match change {
            EnvChange::Remove(key) => change.deep_view() == EnvChangeView::Remove(key@),
            EnvChange::Assign(key, value) => change.deep_view() == EnvChangeView::Assign(
                key@,
                value@,
            ),
        },
{
}

/// An update for a turn stands for its kind and all that it holds.
pub proof fn updates_stand_for_all(update: AcpUpdate)
    ensures
        match update {
            AcpUpdate::Text(text) => update.deep_view() == UpdateView::Text(text@),
            AcpUpdate::Thought(text) => update.deep_view() == UpdateView::Thought(text@),
            AcpUpdate::ToolCallStart { id } => update.deep_view() == (UpdateView::ToolCallStart {
                id: id@,
            }),
            AcpUpdate::ToolCallComplete { id } => update.deep_view() == (
            UpdateView::ToolCallComplete { id: id@ }),
            AcpUpdate::PermissionRequest { request, ticket } => update.deep_view() == (
            UpdateView::PermissionRequest { request: request.deep_view(), ticket }),
            AcpUpdate::Complete(reason) => update.deep_view() == UpdateView::Complete(reason),
            AcpUpdate::Error(text) => update.deep_view() == UpdateView::Error(text@),
        },
{
}

/// Something that the agent tells of a session stands for its kind and all that it holds.
pub proof fn session_updates_stand_for_all(update: SessionUpdate)
    ensures
        match update {
            SessionUpdate::CurrentModeUpdate { current_mode_id } => update.deep_view() == (
            SessionUpdateView::CurrentModeUpdate { current_mode_id: current_mode_id@ }),
            SessionUpdate::ConfigOptionUpdate { config_options } => update.deep_view() == (
            SessionUpdateView::ConfigOptionUpdate { config_options: config_options.deep_view() }),
            SessionUpdate::AgentMessageChunk(block) => update.deep_view()
                == SessionUpdateView::AgentMessageChunk(block.deep_view()),
            SessionUpdate::AgentThoughtChunk(block) => update.deep_view()
                == SessionUpdateView::AgentThoughtChunk(block.deep_view()),
            SessionUpdate::ToolCall { tool_call_id } => update.deep_view() == (
            SessionUpdateView::ToolCall { tool_call_id: tool_call_id@ }),
            SessionUpdate::ToolCallUpdate { tool_call_id, has_status } => update.deep_view() == (
            SessionUpdateView::ToolCallUpdate { tool_call_id: tool_call_id@, has_status }),
            SessionUpdate::Other => update.deep_view() is Other,
        },
{
}

/// What a stream does, and what comes next on the way to the prompt, stand for all that they
/// hold.
pub proof fn actions_stand_for_all(action: StreamAction, start: StreamStart)
    ensures
        match action {
            StreamAction::Nothing => action@ is Nothing,
            StreamAction::Yield(message) => action@ == ActionView::Yield(message.deep_view()),
            StreamAction::Respond { ticket, decision } => action@ == (ActionView::Respond {
                ticket,
                decision,
            }),
            StreamAction::Ask { question, message, replaced } => action@ == (ActionView::Ask {
                request_id: question.request_id(),
                ticket: question.ticket(),
                message: message.deep_view(),
                replaced,
            }),
            StreamAction::Finish => action@ is Finish,
            StreamAction::Fail(error) => action@ == ActionView::Fail(error.text()),
        },
        match start {
            StreamStart::Create(creating, request) => start@ == (StartView::Create {
                turn: creating@,
                request: request.deep_view(),
            }),
            StreamStart::Forward(forwarding, request) => start@ == (StartView::Forward {
                turn: forwarding.turn(),
                acp_id: forwarding.acp_id(),
                request: request.deep_view(),
            }),
            StreamStart::Prompt(_, request) => start@ == StartView::Prompt(request.deep_view()),
            StreamStart::Fail(error) => start@ == StartView::Fail(error.text()),
        },
{
}

/// A configuration stands for all that it holds, and a model for its name.
pub proof fn configurations_stand_for_all(config: AcpProviderConfig, model: ModelConfig)
    ensures
        config.deep_view().command == config.command@,
        config.deep_view().args == config.args.deep_view(),
        config.deep_view().env == config.env.deep_view(),
        config.deep_view().env_remove == config.env_remove.deep_view(),
        config.deep_view().work_dir == config.work_dir@,
        config.deep_view().mcp_servers == config.mcp_servers.deep_view(),
        config.deep_view().session_mode_id == config.session_mode_id.deep_view(),
        config.deep_view().mode_mapping == config.mode_mapping.deep_view(),
        model.deep_view() == model.model_name@,
{
}

} // verus!
