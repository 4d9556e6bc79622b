//! What holds across the functions of this library.
pub mod client_loops;
pub mod errors;
pub mod messages;
pub mod providers;
pub mod servers;
pub mod turns;
pub mod views;

use vstd::prelude::*;

use crate::client_loop::{ModeStepView, ServingView};
use crate::message::{MessageView, PermissionRequestView};
use crate::mode::{GooseMode, PermissionConfirmation, PermissionDecision};
use crate::protocol::{AcpError, Reply};
use crate::provider::AcpProviderView;
use crate::request::RequestView;
use crate::servers::{ExtensionConfig, McpCapabilities, McpServerView};
use crate::session::{CategoryView, ConfigOptionView, NewSessionView, SessionInfoView};
use crate::stream::{ActionView, StartView, StreamState, TurnView, UpdateView};
use crate::update::SessionUpdateView;

verus! {

/// Picking and converting one after the other two sequences is picking and converting both.
proof fn filter_map_distributes<A, B>(left: Seq<A>, right: Seq<A>, f: spec_fn(A) -> Option<B>)
    ensures
        (left + right).filter_map(f) == left.filter_map(f) + right.filter_map(f),
    decreases right.len(),
{
    if right.len() == 0 {
        assert(left + right =~= left);
        assert(left.filter_map(f) + right.filter_map(f) =~= left.filter_map(f));
    } else {
        assert((left + right).drop_last() =~= left + right.drop_last());
        assert((left + right).last() == right.last());
        filter_map_distributes(left, right.drop_last(), f);
        assert((left + right).filter_map(f) =~= left.filter_map(f) + right.filter_map(f));
    }
}

/// What an element is converted to is in the result.
proof fn filter_map_keeps<A, B>(items: Seq<A>, f: spec_fn(A) -> Option<B>, i: int)
    requires
        0 <= i < items.len(),
        f(items[i]) is Some,
    ensures
        items.filter_map(f).contains(f(items[i])->0),
    decreases items.len(),
{
    let rest = items.drop_last();
    if i == items.len() - 1 {
        let out = items.filter_map(f);
        assert(out[out.len() - 1] == f(items[i])->0);
    } else {
        filter_map_keeps(rest, f, i);
        assert(rest[i] == items[i]);
        let j = choose|j: int|
            0 <= j < rest.filter_map(f).len() && rest.filter_map(f)[j] == f(items[i])->0;
        assert(items.filter_map(f)[j] == f(items[i])->0);
    }
}

/// An error that the agent answers with is handed on as it is, and nothing else is.
pub proof fn refusals_are_handed_on<T>(refusal: AcpError, cancelled: Seq<char>, error: AcpError)
    ensures
        Reply::<T>::Failed(refusal).fails_with(cancelled, error) <==> error == refusal,
{
}

/// Every provider is well formed: a new one is, and whatever happens to one keeps it so.
pub proof fn providers_stay_well_formed(
    provider: AcpProviderView,
    goose_id: Seq<char>,
    session: NewSessionView,
    model_name: Seq<char>,
    mode: GooseMode,
    tool_call_id: Seq<char>,
    ticket: u64,
)
    requires
        provider.wf(),
    ensures
        AcpProviderView::fresh(
            provider.name,
            provider.model_name,
            provider.mode_mapping,
            provider.auth_methods,
        ).wf(),
        provider.with_session(goose_id, session).wf(),
        provider.with_model(goose_id, model_name).wf(),
        provider.with_stored_mode(mode).wf(),
        provider.with_mode_announced(mode).wf(),
        provider.with_rejection(tool_call_id).wf(),
        provider.without_rejection(tool_call_id).wf(),
        provider.with_question(tool_call_id, ticket).wf(),
        provider.without_question(tool_call_id).wf(),
{
}

/// A session that has been established is found again, as it was created, and no other
/// session of goose's is touched by that.
pub proof fn established_session_is_found(
    provider: AcpProviderView,
    goose_id: Seq<char>,
    session: NewSessionView,
    other: Seq<char>,
)
    ensures
        provider.with_session(goose_id, session).session(Some(goose_id)) == Some(session),
        other != goose_id ==> provider.with_session(goose_id, session).session(Some(other))
            == provider.session(Some(other)),
{
}

/// A session of goose's that has been established stays so, whatever other session is
/// established and whatever model a session is told of.
pub proof fn sessions_are_never_lost(
    provider: AcpProviderView,
    id: Seq<char>,
    goose_id: Seq<char>,
    session: NewSessionView,
    model_name: Seq<char>,
)
    requires
        provider.sessions.contains_key(id),
    ensures
        provider.with_session(goose_id, session).sessions.contains_key(id),
        provider.with_model(goose_id, model_name).session(Some(id)) == provider.session(Some(id)),
{
}

/// What the agent sends during a turn concerns tool calls alone: sessions, their ids and their
/// models stay as they are.
pub proof fn turns_leave_sessions_alone(
    state: StreamState,
    mode: GooseMode,
    update: Option<UpdateView>,
)
    ensures
        ({
            let before = state.provider;
            let after = state.step(mode, update).0.provider;
            after == (AcpProviderView {
                rejected: after.rejected,
                pending: after.pending,
                ..before
            })
        }),
{
}

/// A session that is asked for without an id of goose's is never found and leaves no trace.
pub proof fn nobodys_session_leaves_no_trace(provider: AcpProviderView, session: NewSessionView)
    ensures
        provider.session(None) is None,
        provider.after_creation(None, session) == provider,
{
}

/// A session that has been established is listed under goose's id, with all that the agent
/// says of it.
pub proof fn established_session_is_listed(
    provider: AcpProviderView,
    goose_id: Seq<char>,
    session: NewSessionView,
    infos: Seq<SessionInfoView>,
    i: int,
)
    requires
        0 <= i < infos.len(),
        infos[i].session_id == session.session_id,
    ensures
        crate::session::under_goose_ids(
            infos,
            provider.with_session(goose_id, session).goose_ids,
        ).contains((SessionInfoView { session_id: goose_id, ..infos[i] })),
{
    let ids = provider.with_session(goose_id, session).goose_ids;
    filter_map_keeps(
        infos,
        |info: SessionInfoView| crate::session::under_goose_id(info, ids),
        i,
    );
}

/// A listed session is one of goose's, and the agent listed it, under the agent's id for it
/// and with all else the same.
pub proof fn listed_sessions_are_gooses(
    provider: AcpProviderView,
    infos: Seq<SessionInfoView>,
    info: SessionInfoView,
)
    requires
        provider.wf(),
        crate::session::under_goose_ids(infos, provider.goose_ids).contains(info),
    ensures
        provider.sessions.contains_key(info.session_id),
        exists|acp_id: Seq<char>|
            provider.goose_ids.contains_key(acp_id) && provider.goose_ids[acp_id]
                == info.session_id && #[trigger] infos.contains(
                (SessionInfoView { session_id: acp_id, ..info }),
            ),
{
    let rename = |info: SessionInfoView|
        crate::session::under_goose_id(info, provider.goose_ids);
    infos.lemma_filter_map_contains(rename, info);
    let source = choose|source: SessionInfoView| #[trigger]
        infos.contains(source) && rename(source) == Some(info);
    assert((SessionInfoView { session_id: source.session_id, ..info }) == source);
    assert(infos.contains((SessionInfoView { session_id: source.session_id, ..info })));
}

/// The agent's ids on record are those of goose's sessions: they are with a new provider, and
/// they stay so with whatever happens to one, where a session is created only for one of
/// goose's that has none.
pub proof fn ids_stay_current(
    provider: AcpProviderView,
    goose_id: Seq<char>,
    session: NewSessionView,
    other: Seq<char>,
    model_name: Seq<char>,
    mode: GooseMode,
    tool_call_id: Seq<char>,
    ticket: u64,
)
    requires
        provider.wf(),
        provider.ids_are_current(),
        !provider.sessions.contains_key(goose_id),
    ensures
        AcpProviderView::fresh(
            provider.name,
            provider.model_name,
            provider.mode_mapping,
            provider.auth_methods,
        ).ids_are_current(),
        provider.with_session(goose_id, session).ids_are_current(),
        provider.with_model(other, model_name).ids_are_current(),
        provider.with_stored_mode(mode).ids_are_current(),
        provider.with_mode_announced(mode).ids_are_current(),
        provider.with_rejection(tool_call_id).ids_are_current(),
        provider.without_rejection(tool_call_id).ids_are_current(),
        provider.with_question(tool_call_id, ticket).ids_are_current(),
        provider.without_question(tool_call_id).ids_are_current(),
{
}

/// Where sessions are created only for those of goose's that have none, an entry that is
/// listed under one of goose's ids comes from the agent's entry for that very session, with
/// all else the same.
pub proof fn listed_sessions_come_from_their_own(
    provider: AcpProviderView,
    infos: Seq<SessionInfoView>,
    info: SessionInfoView,
)
    requires
        provider.wf(),
        provider.ids_are_current(),
        crate::session::under_goose_ids(infos, provider.goose_ids).contains(info),
    ensures
        provider.sessions.contains_key(info.session_id),
        infos.contains(
            (SessionInfoView {
                session_id: provider.sessions[info.session_id].session_id,
                ..info
            }),
        ),
{
    listed_sessions_are_gooses(provider, infos, info);
    let acp_id = choose|acp_id: Seq<char>|
        provider.goose_ids.contains_key(acp_id) && provider.goose_ids[acp_id] == info.session_id
            && #[trigger] infos.contains((SessionInfoView { session_id: acp_id, ..info }));
    assert(provider.sessions[provider.goose_ids[acp_id]].session_id == acp_id);
}

/// Where sessions are created only for those of goose's that have none, one that the agent no
/// longer lists, such as one that it deleted, is no longer listed under goose's id; and one
/// that it lists is, unless the agent gave its id to another session as well.
pub proof fn sessions_are_listed_where_the_agent_lists_them(
    provider: AcpProviderView,
    infos: Seq<SessionInfoView>,
    goose_id: Seq<char>,
)
    requires
        provider.wf(),
        provider.ids_are_current(),
        provider.sessions.contains_key(goose_id),
    ensures
        lists(
            crate::session::under_goose_ids(infos, provider.goose_ids),
            goose_id,
        ) ==> lists(infos, provider.sessions[goose_id].session_id),
        provider.goose_ids[provider.sessions[goose_id].session_id] == goose_id ==> (lists(
            crate::session::under_goose_ids(infos, provider.goose_ids),
            goose_id,
        ) <==> lists(infos, provider.sessions[goose_id].session_id)),
{
    let listed = crate::session::under_goose_ids(infos, provider.goose_ids);
    let acp_id = provider.sessions[goose_id].session_id;
    let rename = |info: SessionInfoView|
        crate::session::under_goose_id(info, provider.goose_ids);
    if lists(listed, goose_id) {
        let i = choose|i: int|
            0 <= i < listed.len() && (#[trigger] listed[i]).session_id == goose_id;
        assert(listed.contains(listed[i]));
        listed_sessions_come_from_their_own(provider, infos, listed[i]);
        let source = SessionInfoView { session_id: acp_id, ..listed[i] };
        let j = choose|j: int| 0 <= j < infos.len() && infos[j] == source;
        assert(infos[j].session_id == acp_id);
    }
    if lists(infos, acp_id) && provider.goose_ids[acp_id] == goose_id {
        let i = choose|i: int| 0 <= i < infos.len() && (#[trigger] infos[i]).session_id == acp_id;
        filter_map_keeps(infos, rename, i);
        let renamed = rename(infos[i])->0;
        let j = choose|j: int| 0 <= j < listed.len() && listed[j] == renamed;
        assert(listed[j].session_id == goose_id);
    }
}

/// Whether there is an entry with this id.
pub open spec fn lists(infos: Seq<SessionInfoView>, id: Seq<char>) -> bool {
    exists|i: int| 0 <= i < infos.len() && (#[trigger] infos[i]).session_id == id
}

/// Sessions are listed in the agent's order, page after page; where goose knows none, none is
/// listed.
pub proof fn listing_keeps_the_order(
    left: Seq<SessionInfoView>,
    right: Seq<SessionInfoView>,
    ids: Map<Seq<char>, Seq<char>>,
)
    ensures
        crate::session::under_goose_ids(left + right, ids) == crate::session::under_goose_ids(
            left,
            ids,
        ) + crate::session::under_goose_ids(right, ids),
        crate::session::under_goose_ids(left, Map::empty()).len() == 0,
{
    filter_map_distributes(
        left,
        right,
        |info: SessionInfoView| crate::session::under_goose_id(info, ids),
    );
    nothing_known_nothing_listed(left);
}

proof fn nothing_known_nothing_listed(infos: Seq<SessionInfoView>)
    ensures
        crate::session::under_goose_ids(infos, Map::empty()).len() == 0,
    decreases infos.len(),
{
    if infos.len() > 0 {
        nothing_known_nothing_listed(infos.drop_last());
    }
}

/// A new session counts as told of the provider's own model; one that was told of a model
/// counts as told of that model and no other; and what one session is told of concerns no
/// other session.
pub proof fn models_are_told_apart(
    provider: AcpProviderView,
    goose_id: Seq<char>,
    session: NewSessionView,
    model_name: Seq<char>,
    other: Seq<char>,
    other_model: Seq<char>,
)
    ensures
        !provider.models.contains_key(goose_id) ==> provider.with_session(
            goose_id,
            session,
        ).model_is(goose_id, provider.model_name),
        provider.with_model(goose_id, model_name).model_is(goose_id, model_name),
        other_model != model_name ==> !provider.with_model(goose_id, model_name).model_is(
            goose_id,
            other_model,
        ),
        other != goose_id ==> provider.with_model(goose_id, model_name).model_is(
            other,
            other_model,
        ) == provider.model_is(other, other_model),
        other != goose_id ==> provider.with_session(goose_id, session).model_is(other, other_model)
            == provider.model_is(other, other_model),
{
}

/// A turn tells the session of its model once: the next turn with the same model goes straight
/// to the prompt, in the session that was established.
pub proof fn model_is_forwarded_once(provider: AcpProviderView, turn: TurnView)
    requires
        provider.sessions.contains_key(turn.session_id),
    ensures
        turn.start(provider.with_model(turn.session_id, turn.model_name)) == StartView::Prompt(
            turn.prompt(provider.sessions[turn.session_id].session_id),
        ),
        turn.start(provider) is Forward <==> !provider.model_is(turn.session_id, turn.model_name),
{
}

/// The first turn of a session with the provider's own model is a new session and the prompt;
/// with another model, that model is forwarded in between.
pub proof fn first_turn(provider: AcpProviderView, turn: TurnView, session: NewSessionView)
    requires
        provider.wf(),
        !provider.sessions.contains_key(turn.session_id),
        !provider.models.contains_key(turn.session_id),
    ensures
        turn.start(provider) == (StartView::Create { turn, request: provider.new_session() }),
        ({
            let after = provider.with_session(turn.session_id, session);
            turn.with_session(after, session) == if turn.model_name == provider.model_name {
                StartView::Prompt(turn.prompt(session.session_id))
            } else {
                StartView::Forward {
                    turn,
                    acp_id: session.session_id,
                    request: after.model_request(turn.session_id, turn.model_name),
                }
            }
        }),
{
}

/// The agent's options are preferred over its older methods exactly where it advertises them,
/// and either way it is the established session that is spoken to.
pub proof fn advertised_options_are_preferred(
    provider: AcpProviderView,
    goose_id: Seq<char>,
    value: Seq<char>,
)
    ensures
        provider.mode_request(goose_id, value) is SetConfigOption
            <==> provider.sessions[goose_id].advertises(CategoryView::Mode),
        provider.mode_request(goose_id, value) is SetMode
            <==> !provider.sessions[goose_id].advertises(CategoryView::Mode),
        provider.model_request(goose_id, value) is SetConfigOption
            <==> provider.sessions[goose_id].advertises(CategoryView::Model),
        provider.model_request(goose_id, value) is SetModel
            <==> !provider.sessions[goose_id].advertises(CategoryView::Model),
        addressed_to(
            provider.mode_request(goose_id, value),
            provider.sessions[goose_id].session_id,
        ),
        addressed_to(
            provider.model_request(goose_id, value),
            provider.sessions[goose_id].session_id,
        ),
{
}

/// Whether a request is about this session of the agent's.
pub open spec fn addressed_to(request: RequestView, acp_id: Seq<char>) -> bool {
    match request {
        RequestView::SetMode { session_id, .. } => session_id == acp_id,
        RequestView::SetModel { session_id, .. } => session_id == acp_id,
        RequestView::SetConfigOption { session_id, .. } => session_id == acp_id,
        RequestView::Prompt { session_id, .. } => session_id == acp_id,
        _ => false,
    }
}

/// A course of a stream: each state follows from the one before by an update, but for the
/// provider, which others may change in between.
pub open spec fn is_course(
    mode: GooseMode,
    states: Seq<StreamState>,
    updates: Seq<UpdateView>,
) -> bool {
    &&& states.len() == updates.len() + 1
    &&& !states[0].suppress_text
    &&& forall|i: int|
        0 <= i < updates.len() ==> (#[trigger] states[i + 1]).suppress_text == states[i].step(
            mode,
            Some(updates[i]),
        ).0.suppress_text
}

proof fn text_stays_suppressed(
    mode: GooseMode,
    states: Seq<StreamState>,
    updates: Seq<UpdateView>,
    i: int,
    j: int,
)
    requires
        is_course(mode, states, updates),
        0 <= i <= j <= updates.len(),
        states[i].suppress_text,
    ensures
        states[j].suppress_text,
    decreases j - i,
{
    if i < j {
        text_stays_suppressed(mode, states, updates, i, j - 1);
        assert(states[(j - 1) + 1].suppress_text == states[j - 1].step(
            mode,
            Some(updates[j - 1]),
        ).0.suppress_text);
    }
}

/// In chat mode nothing that the agent says after it has started a tool goes out.
pub proof fn chat_keeps_text_back(
    states: Seq<StreamState>,
    updates: Seq<UpdateView>,
    i: int,
    j: int,
)
    requires
        is_course(GooseMode::Chat, states, updates),
        0 <= i < j < updates.len(),
        updates[i] is ToolCallStart,
        updates[j] is Text,
    ensures
        states[j].step(GooseMode::Chat, Some(updates[j])).1 == ActionView::Nothing,
{
    assert(states[i + 1].suppress_text);
    text_stays_suppressed(GooseMode::Chat, states, updates, i + 1, j);
}

/// Nothing that the agent says is kept back in another mode, nor in chat mode before it has
/// started a tool: it goes out as it came.
pub proof fn other_text_goes_out(
    mode: GooseMode,
    states: Seq<StreamState>,
    updates: Seq<UpdateView>,
    j: int,
)
    requires
        is_course(mode, states, updates),
        0 <= j < updates.len(),
        updates[j] is Text,
        mode == GooseMode::Chat ==> forall|i: int|
            0 <= i < j ==> !((#[trigger] updates[i]) is ToolCallStart),
    ensures
        states[j].step(mode, Some(updates[j])).1 == ActionView::Yield(
            MessageView::said(updates[j]->Text_0),
        ),
{
    text_is_not_suppressed(mode, states, updates, j);
}

proof fn text_is_not_suppressed(
    mode: GooseMode,
    states: Seq<StreamState>,
    updates: Seq<UpdateView>,
    j: int,
)
    requires
        is_course(mode, states, updates),
        0 <= j <= updates.len(),
        mode == GooseMode::Chat ==> forall|i: int|
            0 <= i < j ==> !((#[trigger] updates[i]) is ToolCallStart),
    ensures
        !states[j].suppress_text,
    decreases j,
{
    if j > 0 {
        text_is_not_suppressed(mode, states, updates, j - 1);
        assert(states[(j - 1) + 1].suppress_text == states[j - 1].step(
            mode,
            Some(updates[j - 1]),
        ).0.suppress_text);
    }
}

/// A thought is always shown to the user, and to the user alone.
pub proof fn thoughts_are_for_the_user(state: StreamState, mode: GooseMode, text: Seq<char>)
    ensures
        state.step(mode, Some(UpdateView::Thought(text))) == (
            state,
            ActionView::Yield(MessageView::thought(text)),
        ),
        MessageView::thought(text).user_visible,
        !MessageView::thought(text).agent_visible,
{
}

/// That a tool call was denied is said when the agent is done with it, and said once.
pub proof fn denial_is_said_once(state: StreamState, mode: GooseMode, id: Seq<char>)
    requires
        state.provider.rejected.contains(id),
    ensures
        ({
            let done = Some(UpdateView::ToolCallComplete { id });
            let (after, action) = state.step(mode, done);
            action == ActionView::Yield(MessageView::said("Tool call was denied."@)) && after.step(
                mode,
                done,
            ) == (after, ActionView::Nothing)
        }),
{
}

/// A tool call that was not denied is over without a word.
pub proof fn permitted_calls_end_quietly(state: StreamState, mode: GooseMode, id: Seq<char>)
    requires
        !state.provider.rejected.contains(id),
    ensures
        state.step(mode, Some(UpdateView::ToolCallComplete { id })) == (
            state,
            ActionView::Nothing,
        ),
{
}

/// In chat mode every tool call is denied, whether the agent asks for permission or not, and
/// the user is told so when the agent is done with it.
pub proof fn chat_denies_every_tool_call(
    state: StreamState,
    request: PermissionRequestView,
    ticket: u64,
)
    ensures
        ({
            let asked = Some(UpdateView::PermissionRequest { request, ticket });
            let started = Some(UpdateView::ToolCallStart { id: request.tool_call_id });
            let done = Some(UpdateView::ToolCallComplete { id: request.tool_call_id });
            let (after, action) = state.step(GooseMode::Chat, asked);
            let denied = ActionView::Yield(MessageView::said("Tool call was denied."@));
            action == (ActionView::Respond { ticket, decision: PermissionDecision::RejectOnce })
                && after.step(GooseMode::Chat, done).1 == denied && state.step(
                GooseMode::Chat,
                started,
            ).0.step(GooseMode::Chat, done).1 == denied
        }),
{
}

/// In automatic mode every request for permission is granted at once, and nothing is noted.
pub proof fn auto_permits_every_request(
    state: StreamState,
    request: PermissionRequestView,
    ticket: u64,
)
    ensures
        state.step(GooseMode::Auto, Some(UpdateView::PermissionRequest { request, ticket })) == (
            state,
            (ActionView::Respond { ticket, decision: PermissionDecision::AllowOnce }),
        ),
{
}

/// The user is asked in the two modes that leave the decision open, always, and in the others
/// never. Whoever is asked, the answer finds the ticket of the request.
pub proof fn users_are_asked_where_the_mode_leaves_it_open(
    state: StreamState,
    mode: GooseMode,
    request: PermissionRequestView,
    ticket: u64,
)
    ensures
        ({
            let (after, action) = state.step(
                mode,
                Some(UpdateView::PermissionRequest { request, ticket }),
            );
            &&& action is Ask <==> mode == GooseMode::Approve || mode == GooseMode::SmartApprove
            &&& action is Respond <==> mode == GooseMode::Auto || mode == GooseMode::Chat
            &&& action is Ask ==> action->message == Some(request.question())
                && action->request_id == request.tool_call_id && after.provider.waiting(
                request.tool_call_id,
            ) == Some(ticket)
        }),
{
}

/// An answer is delivered to the ticket that asked last, and only once; a question about
/// another tool call is not touched.
pub proof fn answers_are_delivered_once(
    provider: AcpProviderView,
    id: Seq<char>,
    ticket: u64,
    other: Seq<char>,
)
    ensures
        provider.with_question(id, ticket).waiting(id) == Some(ticket),
        provider.without_question(id).waiting(id) is None,
        other != id ==> provider.with_question(id, ticket).waiting(other) == provider.waiting(
            other,
        ),
        other != id ==> provider.without_question(id).waiting(other) == provider.waiting(other),
{
}

/// A question that is never answered counts as one that the user cancelled: the tool call is
/// denied.
pub proof fn silence_denies(provider: AcpProviderView, id: Seq<char>)
    ensures
        crate::stream::confirmed_decision(None) == PermissionDecision::Cancel,
        provider.decided(id, crate::stream::confirmed_decision(None)).rejected.contains(id),
{
}

/// A tool call is noted as denied exactly when the user's answer does not permit it.
pub proof fn answers_are_heeded(
    provider: AcpProviderView,
    id: Seq<char>,
    confirmation: PermissionConfirmation,
)
    requires
        !provider.rejected.contains(id),
    ensures
        provider.decided(
            id,
            crate::stream::confirmed_decision(Some(confirmation)),
        ).rejected.contains(id) <==> confirmation.permission
            != crate::mode::Permission::AlwaysAllow && confirmation.permission
            != crate::mode::Permission::AllowOnce,
{
}

/// When the client loop ends, the agent is told of exactly the sessions that the provider was
/// given, in order, and of none where it cannot be told.
pub proof fn given_sessions_are_closed(serving: ServingView, deliveries: Seq<Option<Seq<char>>>)
    requires
        serving.session_ids.len() == 0,
    ensures
        serving.supports_close ==> serving.after_deliveries(deliveries).to_close()
            == deliveries.filter_map(|delivery: Option<Seq<char>>| delivery),
        !serving.supports_close ==> serving.after_deliveries(deliveries).to_close().len() == 0,
    decreases deliveries.len(),
{
    let given = |delivery: Option<Seq<char>>| delivery;
    if deliveries.len() == 0 {
        assert(serving.session_ids =~= Seq::empty());
    } else {
        given_sessions_are_closed(serving, deliveries.drop_last());
        deliveries_change_sessions_only(serving, deliveries.drop_last());
        deliveries_change_sessions_only(serving, deliveries);
        assert(serving.supports_close ==> serving.after_deliveries(deliveries).to_close()
            =~= deliveries.filter_map(given));
    }
}

proof fn deliveries_change_sessions_only(
    serving: ServingView,
    deliveries: Seq<Option<Seq<char>>>,
)
    ensures
        serving.after_deliveries(deliveries) == (ServingView {
            session_ids: serving.after_deliveries(deliveries).session_ids,
            ..serving
        }),
    decreases deliveries.len(),
{
    if deliveries.len() > 0 {
        deliveries_change_sessions_only(serving, deliveries.drop_last());
    }
}

/// A new session that is handed out is in the mode that is asked for, or has been put into it,
/// or has no modes; a mode that the session does not offer is never asked of it.
pub proof fn sessions_get_the_mode_asked_for(mode_id: Seq<char>, session: NewSessionView)
    ensures
        match crate::client_loop::session_mode_step(Some(mode_id), session) {
            ModeStepView::Keep => session.modes is None || session.modes->0.current == mode_id,
            ModeStepView::Change(changed) => changed == mode_id && session.modes is Some
                && session.modes->0.available.contains(mode_id) && session.modes->0.current
                != mode_id,
            ModeStepView::Refuse(_) => session.modes is Some
                && !session.modes->0.available.contains(mode_id) && session.modes->0.current
                != mode_id,
        },
        crate::client_loop::session_mode_step(None, session) == ModeStepView::Keep,
{
}

/// What the agent announces takes the place of the mode that was stored before the first
/// session: the next session is put into the mode that the shared cell holds, which is the
/// stored one until another is announced. Where no mode was stored, or a session was told of
/// one since, an announcement concerns no new session.
pub proof fn announced_modes_reach_new_sessions(
    provider: AcpProviderView,
    stored: GooseMode,
    update: SessionUpdateView,
    mode: GooseMode,
)
    requires
        provider.stored_mode == Some(stored),
    ensures
        ({
            let current = update.mode_after(stored);
            let after = provider.with_mode_announced(current);
            &&& after.stored_mode == Some(current)
            &&& provider.mode_mapping.contains_key(current) ==> after.new_session() == (
            RequestView::NewSession { stored_mode_id: Some(provider.mode_mapping[current]) })
            &&& current == stored ==> after == provider
        }),
        !provider.sessions.is_empty() ==> provider.with_stored_mode(mode).with_mode_announced(
            update.mode_after(mode),
        ).stored_mode is None,
        AcpProviderView::fresh(
            provider.name,
            provider.model_name,
            provider.mode_mapping,
            provider.auth_methods,
        ).with_mode_announced(mode).stored_mode is None,
{
}

/// A mode that was stored before the first session is read whenever a session is created,
/// whether for a turn or not: the session is put into it, or is in it already, where it has
/// that mode. What is configured does not matter then. That a session has been established,
/// or told of a model, changes nothing about the next.
pub proof fn stored_mode_reaches_new_sessions(
    provider: AcpProviderView,
    mode: GooseMode,
    turn: TurnView,
    serving: ServingView,
    session: NewSessionView,
)
    requires
        provider.sessions.is_empty(),
        provider.mode_mapping.contains_key(mode),
        session.modes is Some,
        session.modes->0.has(provider.mode_mapping[mode]),
    ensures
        ({
            let mode_id = provider.mode_mapping[mode];
            let after = provider.with_stored_mode(mode);
            let request = RequestView::NewSession { stored_mode_id: Some(mode_id) };
            let wanted = crate::client_loop::wanted_mode(
                Some(mode_id),
                serving.config.session_mode_id,
                session,
            );
            &&& after.new_session() == request
            &&& turn.start(after) == (StartView::Create { turn, request })
            &&& serving.call(request) is NewSession
            &&& serving.call(request)->stored_mode_id == Some(mode_id)
            &&& crate::client_loop::session_mode_step(wanted, session)
                == if session.modes->0.current == mode_id {
                ModeStepView::Keep
            } else {
                ModeStepView::Change(mode_id)
            }
            &&& after.with_session(turn.session_id, session).new_session() == request
            &&& after.with_model(turn.session_id, turn.model_name).new_session() == request
        }),
{
    assert(!provider.sessions.contains_key(turn.session_id));
}

/// The configured mode counts for a new session where no mode was stored before the first
/// session, where another mode was stored after it, where the agent has no name for the stored
/// mode, and where the session does not have it.
pub proof fn configured_mode_counts_otherwise(
    provider: AcpProviderView,
    mode: GooseMode,
    mode_id: Seq<char>,
    configured: Option<Seq<char>>,
    session: NewSessionView,
)
    ensures
        provider.stored_mode is None ==> provider.stored_mode_id() is None,
        !provider.sessions.is_empty() ==> provider.with_stored_mode(mode).stored_mode_id() is None,
        !provider.mode_mapping.contains_key(mode) ==> provider.with_stored_mode(
            mode,
        ).stored_mode_id() is None,
        crate::client_loop::wanted_mode(None, configured, session) == configured,
        session.modes is None || !session.modes->0.has(mode_id) ==> crate::client_loop::wanted_mode(
            Some(mode_id),
            configured,
            session,
        ) == configured,
{
}

/// A server that the agent starts itself is always passed on, one over HTTP exactly where the
/// agent has the capability, and one over server-sent events never.
pub proof fn servers_pass_by_kind(
    servers: Seq<McpServerView>,
    capabilities: McpCapabilities,
    server: McpServerView,
)
    ensures
        crate::servers::supported_servers(servers, capabilities).contains(server)
            <==> servers.contains(server) && (server is Stdio || server is Http
            && capabilities.http),
{
    let keep = |server: McpServerView| crate::servers::supported(server, capabilities);
    let kept = servers.filter(keep);
    if kept.contains(server) {
        let i = choose|i: int| 0 <= i < kept.len() && kept[i] == server;
        servers.lemma_filter_pred(keep, i);
        servers.lemma_filter_contains_rev(keep, server);
    }
    if servers.contains(server) && keep(server) {
        let i = choose|i: int| 0 <= i < servers.len() && servers[i] == server;
        servers.lemma_filter_contains(keep, i);
    }
}

/// Passing servers on keeps their order, and doing it twice is doing it once.
pub proof fn servers_pass_in_order(
    left: Seq<McpServerView>,
    right: Seq<McpServerView>,
    capabilities: McpCapabilities,
)
    ensures
        crate::servers::supported_servers(left + right, capabilities)
            == crate::servers::supported_servers(left, capabilities)
            + crate::servers::supported_servers(right, capabilities),
        crate::servers::supported_servers(
            crate::servers::supported_servers(left, capabilities),
            capabilities,
        ) == crate::servers::supported_servers(left, capabilities),
{
    let keep = |server: McpServerView| crate::servers::supported(server, capabilities);
    Seq::filter_distributes_over_add(left, right, keep);
    let once = left.filter(keep);
    assert forall|i: int| 0 <= i < once.len() implies keep(#[trigger] once[i]) by {
        left.lemma_filter_pred(keep, i);
    }
    filter_of_kept(once, capabilities);
}

proof fn filter_of_kept(servers: Seq<McpServerView>, capabilities: McpCapabilities)
    requires
        forall|i: int|
            0 <= i < servers.len() ==> crate::servers::supported(
                #[trigger] servers[i],
                capabilities,
            ),
    ensures
        crate::servers::supported_servers(servers, capabilities) == servers,
    decreases servers.len(),
{
    reveal(Seq::filter);
    if servers.len() > 0 {
        let rest = servers.drop_last();
        assert forall|i: int| 0 <= i < rest.len() implies crate::servers::supported(
            #[trigger] rest[i],
            capabilities,
        ) by {
            assert(rest[i] == servers[i]);
        }
        filter_of_kept(rest, capabilities);
        assert(crate::servers::supported(servers[servers.len() - 1], capabilities));
        assert(rest.push(servers.last()) =~= servers);
    } else {
        assert(servers =~= Seq::empty());
    }
}

/// Extensions are converted one by one, in order.
pub proof fn extensions_convert_one_by_one(
    left: Seq<ExtensionConfig>,
    right: Seq<ExtensionConfig>,
)
    ensures
        crate::servers::servers_of(left + right) == crate::servers::servers_of(left)
            + crate::servers::servers_of(right),
{
    filter_map_distributes(left, right, |config: ExtensionConfig| config.server());
}

/// A prompt is made from the last message that the user wrote and the agent may see, whatever
/// comes before it or after it.
pub proof fn prompt_is_the_last_word(
    before: Seq<MessageView>,
    message: MessageView,
    after: Seq<MessageView>,
)
    requires
        message.prompts(),
        forall|i: int| 0 <= i < after.len() ==> !(#[trigger] after[i]).prompts(),
    ensures
        crate::message::prompt_for(before.push(message) + after) == crate::message::prompt_for(
            seq![message],
        ),
    decreases after.len(),
{
    let messages = before.push(message) + after;
    if after.len() == 0 {
        assert(messages =~= before.push(message));
        assert(messages.last() == message);
        assert(seq![message].last() == message);
    } else {
        let rest = after.drop_last();
        assert(messages.drop_last() =~= before.push(message) + rest);
        assert(messages.last() == after[after.len() - 1]);
        assert forall|i: int| 0 <= i < rest.len() implies !(#[trigger] rest[i]).prompts() by {
            assert(rest[i] == after[i]);
        }
        prompt_is_the_last_word(before, message, rest);
    }
}

/// Where the user wrote nothing that the agent may see, the prompt is empty.
pub proof fn nothing_written_nothing_prompted(messages: Seq<MessageView>)
    requires
        forall|i: int| 0 <= i < messages.len() ==> !(#[trigger] messages[i]).prompts(),
    ensures
        crate::message::prompt_for(messages).len() == 0,
    decreases messages.len(),
{
    if messages.len() > 0 {
        let rest = messages.drop_last();
        assert(!messages[messages.len() - 1].prompts());
        assert forall|i: int| 0 <= i < rest.len() implies !(#[trigger] rest[i]).prompts() by {
            assert(rest[i] == messages[i]);
        }
        nothing_written_nothing_prompted(rest);
    }
}

/// A mode that the agent announces by its name is taken over, whichever way it is announced;
/// of several options the last that names a mode counts, and a name of no mode counts for
/// nothing.
pub proof fn announced_modes_are_taken_over(
    mode: GooseMode,
    announced: GooseMode,
    name: Seq<char>,
    options: Seq<ConfigOptionView>,
)
    ensures
        (SessionUpdateView::CurrentModeUpdate { current_mode_id: announced.name() }).mode_after(
            mode,
        ) == announced,
        (SessionUpdateView::ConfigOptionUpdate {
            config_options: options.push(
                ConfigOptionView {
                    category: Some(CategoryView::Mode),
                    selected: Some(announced.name()),
                },
            ),
        }).mode_after(mode) == announced,
        crate::mode::mode_named(name) is None ==> (SessionUpdateView::CurrentModeUpdate {
            current_mode_id: name,
        }).mode_after(mode) == mode,
        crate::mode::mode_named(name) is None ==> (SessionUpdateView::ConfigOptionUpdate {
            config_options: options.push(
                ConfigOptionView { category: Some(CategoryView::Mode), selected: Some(name) },
            ),
        }).mode_after(mode) == crate::update::mode_after_options(mode, options),
{
    crate::mode::mode_names_round_trip(announced, name);
    let good = ConfigOptionView {
        category: Some(CategoryView::Mode),
        selected: Some(announced.name()),
    };
    let bad = ConfigOptionView { category: Some(CategoryView::Mode), selected: Some(name) };
    assert(options.push(good).last() == good);
    assert(options.push(bad).last() == bad);
    assert(options.push(bad).drop_last() =~= options);
}

/// What a turn gets to hear leaves the mode alone, and what changes the mode is nothing that a
/// turn gets to hear.
pub proof fn modes_and_turns_are_told_apart(update: SessionUpdateView, mode: GooseMode)
    ensures
        update.for_turn() is Some ==> update.mode_after(mode) == mode,
        update.mode_after(mode) != mode ==> update.for_turn() is None,
{
}

} // verus!
