//! What the client loop asks of the agent, and what it takes from updates.
use vstd::prelude::*;

use crate::client_loop::{AgentCallView, ModeStepView, ServingView};
use crate::message::BlockView;
use crate::mode::GooseMode;
use crate::process::EnvChangeView;
use crate::request::RequestView;
use crate::servers::McpServerView;
use crate::session::{CategoryView, ConfigOptionView, ModeStateView, NewSessionView};
use crate::stream::UpdateView;
use crate::update::SessionUpdateView;

verus! {

/// Every request but one for a new session becomes the call of the same kind with the same
/// contents.
pub proof fn requests_are_passed_on(serving: ServingView, request: RequestView)
    ensures
        match request {
            RequestView::NewSession { stored_mode_id } => serving.call(
                request,
            ) matches AgentCallView::NewSession { cwd, stored_mode_id: kept, .. } && cwd
                == serving.config.work_dir && kept == stored_mode_id,
            RequestView::ListSessions => serving.call(request) is ListSessions,
            RequestView::SetMode { session_id, mode_id } => serving.call(
                request,
            ) matches AgentCallView::SetMode { session_id: id, mode_id: mode } && id == session_id
                && mode == mode_id,
            RequestView::SetModel { session_id, model_id } => serving.call(
                request,
            ) matches AgentCallView::SetModel { session_id: id, model_id: model } && id
                == session_id && model == model_id,
            RequestView::SetConfigOption { session_id, config_id, value } => serving.call(
                request,
            ) matches AgentCallView::SetConfigOption {
                session_id: id,
                config_id: config,
                value: set,
            } && id == session_id && config == config_id && set == value,
            RequestView::Prompt { session_id, content } => serving.call(
                request,
            ) matches AgentCallView::Prompt { session_id: id, content: blocks } && id == session_id
                && blocks == content,
            RequestView::Untyped { method, params } => serving.call(
                request,
            ) matches AgentCallView::Untyped { method: called, params: passed } && called == method
                && passed == params,
        },
{
}

/// A new session is told of a configured server just where the agent starts it itself, or
/// reaches it over HTTP and can; and of those in the order in which they are configured.
pub proof fn new_sessions_are_told_of_servers(
    serving: ServingView,
    stored_mode_id: Option<Seq<char>>,
    server: McpServerView,
)
    ensures
        ({
            let call = serving.call(RequestView::NewSession { stored_mode_id });
            call is NewSession && call->mcp_servers == crate::servers::supported_servers(
                serving.config.mcp_servers,
                serving.mcp_capabilities,
            ) && (call->mcp_servers.contains(server)
                <==> serving.config.mcp_servers.contains(server) && (server is Stdio || server
                is Http && serving.mcp_capabilities.http))
        }),
{
    crate::laws::servers_pass_by_kind(
        serving.config.mcp_servers,
        serving.mcp_capabilities,
        server,
    );
}

/// Remembering a session puts it behind those that are remembered, and changes nothing else;
/// all that are remembered are to be closed, in order, where the agent can be told, and none
/// where not.
pub proof fn sessions_are_remembered_in_order(serving: ServingView, session_id: Seq<char>)
    ensures
        ({
            let after = serving.with_session(session_id);
            &&& after == (ServingView { session_ids: after.session_ids, ..serving })
            &&& after.session_ids.len() == serving.session_ids.len() + 1
            &&& after.session_ids.last() == session_id
            &&& after.session_ids.drop_last() == serving.session_ids
        }),
        serving.supports_close ==> serving.to_close() == serving.session_ids,
        !serving.supports_close ==> serving.to_close().len() == 0,
{
    assert(serving.session_ids.push(session_id).drop_last() =~= serving.session_ids);
}

/// A new session that has the stored mode is to be in it; else it is to be in the configured
/// one, if any. To have a mode is to be in it or to offer it.
pub proof fn wanted_modes_are_had_or_configured(
    stored: Option<Seq<char>>,
    configured: Option<Seq<char>>,
    session: NewSessionView,
)
    ensures
        ({
            let had = stored is Some && session.modes is Some && (session.modes->0.current
                == stored->0 || session.modes->0.available.contains(stored->0));
            crate::client_loop::wanted_mode(stored, configured, session) == if had {
                stored
            } else {
                configured
            }
        }),
{
}

/// A mode that a session neither is in nor offers is refused with a text that names the mode
/// and all that the session offers.
pub proof fn refusals_name_the_modes(mode_id: Seq<char>, session: NewSessionView)
    requires
        session.modes is Some,
        session.modes->0.current != mode_id,
        !session.modes->0.available.contains(mode_id),
    ensures
        crate::client_loop::session_mode_step(Some(mode_id), session) matches ModeStepView::Refuse(
            text,
        ) && text == "Requested mode '"@ + mode_id
            + "' not offered by agent. Available modes: "@ + crate::text::joined(
            session.modes->0.available,
            ", "@,
        ),
{
}

/// A mode that a session offers and is not in is what it is put into; one that it is in, and
/// no mode, and any mode for a session without modes, leave it as it is.
pub proof fn offered_modes_are_changed_to(mode_id: Seq<char>, session: NewSessionView)
    ensures
        session.modes is None ==> crate::client_loop::session_mode_step(Some(mode_id), session)
            is Keep,
        crate::client_loop::session_mode_step(None, session) is Keep,
        session.modes matches Some(modes) && modes.current == mode_id
            ==> crate::client_loop::session_mode_step(Some(mode_id), session) is Keep,
        session.modes matches Some(modes) && modes.current != mode_id && modes.available.contains(
            mode_id,
        ) ==> crate::client_loop::session_mode_step(Some(mode_id), session)
            == ModeStepView::Change(mode_id),
{
}

/// Joined pieces are the pieces with the separator between each two: none for no piece, the
/// piece for one, and one more piece adds the separator and that piece.
pub proof fn pieces_are_joined(
    pieces: Seq<Seq<char>>,
    piece: Seq<char>,
    separator: Seq<char>,
)
    ensures
        crate::text::joined(Seq::empty(), separator).len() == 0,
        crate::text::joined(seq![piece], separator) == piece,
        pieces.len() > 0 ==> crate::text::joined(pieces.push(piece), separator)
            == crate::text::joined(pieces, separator) + separator + piece,
{
    assert(pieces.push(piece).drop_last() =~= pieces);
}

/// A turn hears the texts and thoughts that the agent sends, word for word, that a tool call
/// has started, and that it has a new status; under the id of the tool call. It hears of
/// nothing else.
pub proof fn turns_hear_what_the_agent_sends(update: SessionUpdateView)
    ensures
        match update {
            SessionUpdateView::AgentMessageChunk(BlockView::Text(text)) => update.for_turn()
                == Some(UpdateView::Text(text)),
            SessionUpdateView::AgentThoughtChunk(BlockView::Text(text)) => update.for_turn()
                == Some(UpdateView::Thought(text)),
            SessionUpdateView::ToolCall { tool_call_id } => update.for_turn() == Some(
                UpdateView::ToolCallStart { id: tool_call_id },
            ),
            SessionUpdateView::ToolCallUpdate { tool_call_id, has_status } => {
                &&& has_status ==> update.for_turn() == Some(
                    UpdateView::ToolCallComplete { id: tool_call_id },
                )
                &&& !has_status ==> update.for_turn() is None
            },
            _ => update.for_turn() is None,
        },
{
}

/// An option selects a mode just where it is about modes and the name of that mode is
/// selected.
pub proof fn options_select_modes(option: ConfigOptionView, mode: GooseMode)
    ensures
        option.selected_mode() == Some(mode) <==> option.category == Some(CategoryView::Mode)
            && option.selected is Some && crate::mode::mode_named(option.selected->0) == Some(mode),
{
}

/// Of several options the last that selects a mode counts, whatever stands before it; where
/// none does, the mode stays.
pub proof fn last_selected_mode_counts(
    mode: GooseMode,
    before: Seq<ConfigOptionView>,
    option: ConfigOptionView,
    after: Seq<ConfigOptionView>,
)
    requires
        forall|i: int| 0 <= i < after.len() ==> (#[trigger] after[i]).selected_mode() is None,
    ensures
        (SessionUpdateView::ConfigOptionUpdate {
            config_options: before.push(option) + after,
        }).mode_after(mode) == match option.selected_mode() {
            Some(selected) => selected,
            None => (SessionUpdateView::ConfigOptionUpdate { config_options: before }).mode_after(
                mode,
            ),
        },
        (SessionUpdateView::ConfigOptionUpdate { config_options: after }).mode_after(mode) == mode,
    decreases after.len(),
{
    let options = before.push(option) + after;
    if after.len() == 0 {
        assert(options =~= before.push(option));
        assert(options.drop_last() =~= before);
        assert(options.last() == option);
    } else {
        let rest = after.drop_last();
        assert(options.drop_last() =~= before.push(option) + rest);
        assert(options.last() == after[after.len() - 1]);
        assert forall|i: int| 0 <= i < rest.len() implies (#[trigger] rest[i]).selected_mode()
            is None by {
            assert(rest[i] == after[i]);
        }
        last_selected_mode_counts(mode, before, option, rest);
    }
}

/// A mode that the agent says it is in is taken over if it is the name of one, and what is not
/// about modes leaves the mode as it is.
pub proof fn modes_follow_the_agent(update: SessionUpdateView, mode: GooseMode, named: GooseMode)
    ensures
        match update {
            SessionUpdateView::CurrentModeUpdate { current_mode_id } => {
                &&& crate::mode::mode_named(current_mode_id) == Some(named) ==> update.mode_after(
                    mode,
                ) == named
                &&& crate::mode::mode_named(current_mode_id) is None ==> update.mode_after(mode)
                    == mode
            },
            SessionUpdateView::ConfigOptionUpdate { .. } => true,
            _ => update.mode_after(mode) == mode,
        },
{
}

/// A session has a mode where it is in it or offers it.
pub proof fn modes_are_had(modes: ModeStateView, mode_id: Seq<char>)
    ensures
        modes.has(mode_id) <==> modes.current == mode_id || exists|i: int|
            0 <= i < modes.available.len() && #[trigger] modes.available[i] == mode_id,
{
}

/// The environment of the agent's process is changed by each removal and then by each setting,
/// one for one and in order.
pub proof fn environments_are_changed_in_order(
    removed: Seq<Seq<char>>,
    set: Seq<(Seq<char>, Seq<char>)>,
    i: int,
)
    ensures
        ({
            let changes = crate::process::env_changes(removed, set);
            &&& changes.len() == removed.len() + set.len()
            &&& 0 <= i < removed.len() ==> changes[i] == EnvChangeView::Remove(removed[i])
            &&& 0 <= i < set.len() ==> changes[removed.len() + i] == EnvChangeView::Assign(
                set[i].0,
                set[i].1,
            )
        }),
{
}

} // verus!
