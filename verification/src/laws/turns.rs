//! What a turn sends, what it does about each update, and how its tool calls end.
use vstd::prelude::*;

use crate::message::{ContentView, PermissionRequestView, Role};
use crate::mode::{GooseMode, Permission, PermissionConfirmation, PermissionDecision};
use crate::provider::AcpProviderView;
use crate::request::RequestView;
use crate::session::{CategoryView, NewSessionView};
use crate::stream::{ActionView, StartView, StreamState, TurnView, UpdateView};

verus! {

/// A text that is not kept back goes out as one message of the assistant that holds that text
/// and nothing more, for the user and the agent; one that is kept back does nothing. Either
/// way the turn goes on as it was.
pub proof fn texts_go_out_whole(state: StreamState, mode: GooseMode, text: Seq<char>)
    ensures
        ({
            let (after, action) = state.step(mode, Some(UpdateView::Text(text)));
            &&& after == state
            &&& state.suppress_text ==> action is Nothing
            &&& !state.suppress_text ==> action is Yield && says(action, text)
        }),
{
}

/// Whether the action is to let a message of the assistant go out that holds this text and
/// nothing more, for the user and the agent.
pub open spec fn says(action: ActionView, text: Seq<char>) -> bool {
    action matches ActionView::Yield(message) && message.role == Role::Assistant
        && message.content.len() == 1 && message.content[0] == ContentView::Text(text)
        && message.user_visible && message.agent_visible
}

/// A thought always goes out, as one message of the assistant that holds that thought and
/// nothing more, for the user alone; and the turn goes on as it was.
pub proof fn thoughts_go_out_whole(state: StreamState, mode: GooseMode, text: Seq<char>)
    ensures
        ({
            let (after, action) = state.step(mode, Some(UpdateView::Thought(text)));
            &&& after == state
            &&& action matches ActionView::Yield(message) && message.role == Role::Assistant
                && message.content.len() == 1 && message.content[0] is Thinking
                && message.content[0]->thinking == text && message.content[0]->signature.len() == 0
                && message.user_visible && !message.agent_visible
        }),
{
}

/// That a tool call has started means nothing in any mode but chat. In chat it is denied, no
/// other tool call is, and texts are kept back from then on.
pub proof fn started_calls_are_denied_in_chat_alone(
    state: StreamState,
    mode: GooseMode,
    id: Seq<char>,
    other: Seq<char>,
)
    ensures
        ({
            let (after, action) = state.step(mode, Some(UpdateView::ToolCallStart { id }));
            &&& action is Nothing
            &&& !(mode is Chat) ==> after == state
            &&& mode is Chat ==> after.suppress_text && after.provider == (AcpProviderView {
                rejected: after.provider.rejected,
                ..state.provider
            }) && after.provider.rejected.contains(id)
            &&& mode is Chat && other != id ==> after.provider.rejected.contains(other)
                == state.provider.rejected.contains(other)
        }),
{
}

/// When the agent is done with a tool call that was denied, that is said in so many words and
/// no longer held against it; of one that was not denied nothing is said. Other tool calls are
/// not touched, in any mode.
pub proof fn ended_calls_are_told_apart(
    state: StreamState,
    mode: GooseMode,
    id: Seq<char>,
    other: Seq<char>,
)
    ensures
        ({
            let (after, action) = state.step(mode, Some(UpdateView::ToolCallComplete { id }));
            &&& !state.provider.rejected.contains(id) ==> action is Nothing && after == state
            &&& state.provider.rejected.contains(id) ==> action is Yield && says(
                action,
                "Tool call was denied."@,
            ) && after.suppress_text == state.suppress_text && after.provider == (AcpProviderView {
                rejected: after.provider.rejected,
                ..state.provider
            }) && !after.provider.rejected.contains(id)
            &&& other != id ==> after.provider.rejected.contains(other)
                == state.provider.rejected.contains(other)
        }),
{
}

/// A request for permission is granted once in automatic mode, with nothing noted, and denied
/// once in chat mode, with the tool call noted. The answer goes to the ticket of the request.
pub proof fn requests_are_answered_by_mode(
    state: StreamState,
    request: PermissionRequestView,
    ticket: u64,
    other: Seq<char>,
)
    ensures
        ({
            let asked = Some(UpdateView::PermissionRequest { request, ticket });
            let (auto, granted) = state.step(GooseMode::Auto, asked);
            let (chat, denied) = state.step(GooseMode::Chat, asked);
            &&& auto == state
            &&& granted == (ActionView::Respond {
                ticket,
                decision: PermissionDecision::AllowOnce,
            })
            &&& denied == (ActionView::Respond {
                ticket,
                decision: PermissionDecision::RejectOnce,
            })
            &&& chat.suppress_text == state.suppress_text
            &&& chat.provider == (AcpProviderView {
                rejected: chat.provider.rejected,
                ..state.provider
            })
            &&& chat.provider.rejected.contains(request.tool_call_id)
            &&& other != request.tool_call_id ==> chat.provider.rejected.contains(other)
                == state.provider.rejected.contains(other)
        }),
{
}

/// In the two modes that leave it open, the user is asked about the very tool call, by one
/// message; the question is open under the ticket of the request, whoever waited for the same
/// question is named, nothing is denied yet, and no other question is touched.
pub proof fn requests_are_put_to_the_user(
    state: StreamState,
    mode: GooseMode,
    request: PermissionRequestView,
    ticket: u64,
    other: Seq<char>,
)
    requires
        mode is Approve || mode is SmartApprove,
    ensures
        ({
            let id = request.tool_call_id;
            let (after, action) = state.step(
                mode,
                Some(UpdateView::PermissionRequest { request, ticket }),
            );
            &&& action is Ask
            &&& action->request_id == id
            &&& action->Ask_ticket == ticket
            &&& action->replaced == if state.provider.pending.contains_key(id) {
                Some(state.provider.pending[id])
            } else {
                None
            }
            &&& action->message matches Some(message) && message.content.len() == 1
                && message.content[0] is ActionRequired && message.content[0]->id == id
                && message.user_visible && !message.agent_visible
            &&& after.suppress_text == state.suppress_text
            &&& after.provider == (AcpProviderView {
                pending: after.provider.pending,
                ..state.provider
            })
            &&& after.provider.pending.contains_key(id) && after.provider.pending[id] == ticket
            &&& other != id ==> after.provider.pending.contains_key(other)
                == state.provider.pending.contains_key(other) && after.provider.pending[other]
                == state.provider.pending[other]
        }),
{
}

/// A turn ends when the agent says that it is complete and when the updates end, and fails
/// with the text of an error. None of these changes anything.
pub proof fn turns_end_as_the_agent_says(
    state: StreamState,
    mode: GooseMode,
    reason: sacp::schema::StopReason,
    text: Seq<char>,
)
    ensures
        state.step(mode, None) == (state, ActionView::Finish),
        state.step(mode, Some(UpdateView::Complete(reason))) == (state, ActionView::Finish),
        state.step(mode, Some(UpdateView::Error(text))) == (state, ActionView::Fail(text)),
{
}

/// What an answer decides is what the user chose, whatever the answer is about; no answer
/// cancels.
pub proof fn answers_decide_as_chosen(confirmation: PermissionConfirmation)
    ensures
        ({
            let decision = crate::stream::confirmed_decision(Some(confirmation));
            match confirmation.permission {
                Permission::AlwaysAllow => decision is AllowAlways,
                Permission::AllowOnce => decision is AllowOnce,
                Permission::AlwaysDeny => decision is RejectAlways,
                Permission::DenyOnce => decision is RejectOnce,
                Permission::Cancel => decision is Cancel,
            }
        }),
        crate::stream::confirmed_decision(None) is Cancel,
{
}

/// A tool call that the agent starts, asks about and is done with ends without a word where
/// the user permitted it, and with the word that it was denied where the user did not or did
/// not answer. It does so in both modes that ask, whatever is said meanwhile about another tool
/// call.
pub proof fn asked_calls_end_as_the_user_decided(
    state: StreamState,
    mode: GooseMode,
    request: PermissionRequestView,
    ticket: u64,
    confirmation: Option<PermissionConfirmation>,
    other: Seq<char>,
)
    requires
        mode is Approve || mode is SmartApprove,
        !state.provider.rejected.contains(request.tool_call_id),
        other != request.tool_call_id,
    ensures
        ({
            let id = request.tool_call_id;
            let started = state.step(mode, Some(UpdateView::ToolCallStart { id })).0;
            let asked = started.step(
                mode,
                Some(UpdateView::PermissionRequest { request, ticket }),
            ).0;
            let answered = StreamState {
                provider: asked.provider.without_question(id).decided(
                    id,
                    crate::stream::confirmed_decision(confirmation),
                ),
                ..asked
            };
            let meanwhile = answered.step(mode, Some(UpdateView::ToolCallComplete { id: other })).0;
            let action = meanwhile.step(mode, Some(UpdateView::ToolCallComplete { id })).1;
            let permitted = confirmation matches Some(answer) && (answer.permission is AllowOnce
                || answer.permission is AlwaysAllow);
            &&& permitted ==> action is Nothing
            &&& !permitted ==> action is Yield && says(action, "Tool call was denied."@)
        }),
{
}

/// In automatic mode a tool call that was not denied before ends without a word, whether or not
/// the agent asks about it.
pub proof fn automatic_calls_end_quietly(
    state: StreamState,
    request: PermissionRequestView,
    ticket: u64,
)
    requires
        !state.provider.rejected.contains(request.tool_call_id),
    ensures
        ({
            let id = request.tool_call_id;
            let mode = GooseMode::Auto;
            let started = state.step(mode, Some(UpdateView::ToolCallStart { id })).0;
            let asked = started.step(
                mode,
                Some(UpdateView::PermissionRequest { request, ticket }),
            ).0;
            let done = Some(UpdateView::ToolCallComplete { id });
            started.step(mode, done).1 is Nothing && asked.step(mode, done).1 is Nothing
        }),
{
}

/// A turn of a session that is established and was told of the turn's model sends the prompt of
/// the turn, and nothing else, to the agent's own session.
pub proof fn turns_prompt_their_session(provider: AcpProviderView, turn: TurnView)
    requires
        provider.sessions.contains_key(turn.session_id),
        provider.models.contains_key(turn.session_id),
        provider.models[turn.session_id] == turn.model_name,
    ensures
        turn.start(provider) matches StartView::Prompt(
            RequestView::Prompt { session_id, content },
        ) && session_id == provider.sessions[turn.session_id].session_id && content
            == turn.content,
{
}

/// A turn of a session that is established and was told of another model, or of none, first
/// tells the agent's own session of the turn's model. It stays the same turn, and then prompts
/// that session.
pub proof fn turns_forward_their_model(provider: AcpProviderView, turn: TurnView)
    requires
        provider.sessions.contains_key(turn.session_id),
        !provider.models.contains_key(turn.session_id) || provider.models[turn.session_id]
            != turn.model_name,
    ensures
        ({
            let session = provider.sessions[turn.session_id];
            let acp = session.session_id;
            let optional = crate::laws::providers::says_option(session, CategoryView::Model);
            turn.start(provider) matches StartView::Forward { turn: same, acp_id, request } && same
                == turn && acp_id == acp && match request {
                RequestView::SetModel { session_id, model_id } => !optional && session_id == acp
                    && model_id == turn.model_name,
                RequestView::SetConfigOption { session_id, config_id, value } => optional
                    && session_id == acp && config_id == "model"@ && value == turn.model_name,
                _ => false,
            }
        }),
{
}

/// A turn of a session that is not established first asks for a session, in the mode for new
/// sessions where the agent has a name for it. It stays the same turn.
pub proof fn turns_create_their_session(provider: AcpProviderView, turn: TurnView)
    requires
        !provider.sessions.contains_key(turn.session_id),
    ensures
        turn.start(provider) matches StartView::Create { turn: same, request } && same == turn
            && request is NewSession && request->stored_mode_id == match provider.stored_mode {
            Some(mode) => if provider.mode_mapping.contains_key(mode) {
                Some(provider.mode_mapping[mode])
            } else {
                None
            },
            None => None,
        },
{
}

/// Once its session has been created, a turn goes on with that session, whatever the provider
/// knows of others: with the prompt where the turn's model is on record for it, and with the
/// model where not.
pub proof fn turns_go_on_with_their_session(
    provider: AcpProviderView,
    turn: TurnView,
    session: NewSessionView,
)
    ensures
        ({
            let after = provider.with_session(turn.session_id, session);
            let optional = crate::laws::providers::says_option(session, CategoryView::Model);
            let told = if provider.models.contains_key(turn.session_id) {
                provider.models[turn.session_id]
            } else {
                provider.model_name
            };
            match turn.with_session(after, session) {
                StartView::Prompt(RequestView::Prompt { session_id, content }) => told
                    == turn.model_name && session_id == session.session_id && content
                    == turn.content,
                StartView::Forward { turn: same, acp_id, request } => told != turn.model_name
                    && same == turn && acp_id == session.session_id && match request {
                    RequestView::SetModel { session_id, model_id } => !optional && session_id
                        == session.session_id && model_id == turn.model_name,
                    RequestView::SetConfigOption { session_id, config_id, value } => optional
                        && session_id == session.session_id && config_id == "model"@ && value
                        == turn.model_name,
                    _ => false,
                },
                _ => false,
            }
        }),
{
}

/// A turn whose session is not on record fails, in words that name the session, unless the
/// turn's model is on record for it.
pub proof fn turns_without_session_fail(
    provider: AcpProviderView,
    turn: TurnView,
    session: NewSessionView,
)
    requires
        !provider.sessions.contains_key(turn.session_id),
    ensures
        turn.with_session(provider, session) == if provider.models.contains_key(turn.session_id)
            && provider.models[turn.session_id] == turn.model_name {
            StartView::Prompt(
                RequestView::Prompt { session_id: session.session_id, content: turn.content },
            )
        } else {
            StartView::Fail(
                "Failed to set model: "@ + crate::provider::session_not_found_text(turn.session_id),
            )
        },
{
}

/// The prompt of a turn goes to the session that it is sent to, with all that the turn holds.
pub proof fn prompts_are_addressed(turn: TurnView, acp_id: Seq<char>)
    ensures
        turn.prompt(acp_id) is Prompt,
        turn.prompt(acp_id)->Prompt_session_id == acp_id,
        turn.prompt(acp_id)->content == turn.content,
{
}

} // verus!
