//! What each step does to a provider, and what it leaves alone.
use vstd::prelude::*;

use crate::mode::{GooseMode, ModeMapping, Permission, PermissionDecision};
use crate::provider::AcpProviderView;
use crate::request::RequestView;
use crate::session::{CategoryView, NewSessionView, SessionInfoView};

verus! {

/// A new provider has what it was made with, knows no session and no model, waits for nobody,
/// holds nothing against any tool call and has no mode for new sessions.
pub proof fn new_providers_are_empty(
    name: Seq<char>,
    model_name: Seq<char>,
    mode_mapping: Map<GooseMode, Seq<char>>,
    auth_methods: Seq<sacp::schema::AuthMethod>,
    id: Seq<char>,
)
    ensures
        ({
            let provider = AcpProviderView::fresh(name, model_name, mode_mapping, auth_methods);
            &&& provider.name == name
            &&& provider.model_name == model_name
            &&& provider.mode_mapping == mode_mapping
            &&& provider.auth_methods == auth_methods
            &&& provider.stored_mode is None
            &&& !provider.sessions.contains_key(id)
            &&& !provider.goose_ids.contains_key(id)
            &&& !provider.models.contains_key(id)
            &&& !provider.rejected.contains(id)
            &&& !provider.pending.contains_key(id)
        }),
{
}

/// Establishing a session enters it under goose's id, enters goose's id under the agent's, and
/// enters the provider's model where none is on record. Every other entry, and all else about
/// the provider, stays.
pub proof fn establishing_enters_one_session(
    provider: AcpProviderView,
    goose_id: Seq<char>,
    session: NewSessionView,
    other: Seq<char>,
)
    ensures
        ({
            let after = provider.with_session(goose_id, session);
            &&& after == provider.after_creation(Some(goose_id), session)
            &&& after == (AcpProviderView {
                sessions: after.sessions,
                goose_ids: after.goose_ids,
                models: after.models,
                ..provider
            })
            &&& after.sessions.contains_key(goose_id) && after.sessions[goose_id] == session
            &&& after.goose_ids.contains_key(session.session_id)
                && after.goose_ids[session.session_id] == goose_id
            &&& after.models.contains_key(goose_id) && after.models[goose_id]
                == if provider.models.contains_key(goose_id) {
                provider.models[goose_id]
            } else {
                provider.model_name
            }
            &&& other != goose_id ==> after.sessions.contains_key(other)
                == provider.sessions.contains_key(other) && after.sessions[other]
                == provider.sessions[other] && after.models.contains_key(other)
                == provider.models.contains_key(other) && after.models[other]
                == provider.models[other]
            &&& other != session.session_id ==> after.goose_ids.contains_key(other)
                == provider.goose_ids.contains_key(other) && after.goose_ids[other]
                == provider.goose_ids[other]
        }),
{
}

/// A session is found under an id just where it is on record under that id, as it is on
/// record; without an id none is found.
pub proof fn sessions_are_found_by_their_ids(provider: AcpProviderView, id: Seq<char>)
    ensures
        provider.sessions.contains_key(id) ==> provider.session(Some(id)) == Some(
            provider.sessions[id],
        ),
        !provider.sessions.contains_key(id) ==> provider.session(Some(id)) is None,
        provider.session(None) is None,
{
}

/// Telling a session of a model puts that model on record for that session, and changes
/// nothing else.
pub proof fn telling_of_a_model_enters_it(
    provider: AcpProviderView,
    goose_id: Seq<char>,
    model_name: Seq<char>,
    other: Seq<char>,
)
    ensures
        ({
            let after = provider.with_model(goose_id, model_name);
            &&& after == (AcpProviderView { models: after.models, ..provider })
            &&& after.models.contains_key(goose_id) && after.models[goose_id] == model_name
            &&& other != goose_id ==> after.models.contains_key(other)
                == provider.models.contains_key(other) && after.models[other]
                == provider.models[other]
        }),
        provider.model_is(goose_id, model_name) <==> provider.models.contains_key(goose_id)
            && provider.models[goose_id] == model_name,
{
}

/// Storing or announcing a mode touches the mode for new sessions and nothing else. Stored
/// while there is no session, it is that mode; stored later, there is none; announced, it
/// takes the place of one that is there.
pub proof fn modes_for_new_sessions(
    provider: AcpProviderView,
    mode: GooseMode,
    known: Seq<char>,
)
    ensures
        ({
            let stored = provider.with_stored_mode(mode);
            let announced = provider.with_mode_announced(mode);
            &&& stored == (AcpProviderView { stored_mode: stored.stored_mode, ..provider })
            &&& announced == (AcpProviderView { stored_mode: announced.stored_mode, ..provider })
            &&& provider.sessions == Map::<Seq<char>, NewSessionView>::empty()
                ==> stored.stored_mode == Some(mode)
            &&& provider.sessions.contains_key(known) ==> stored.stored_mode is None
            &&& announced.stored_mode == if provider.stored_mode is Some {
                Some(mode)
            } else {
                None
            }
        }),
{
}

/// The request for a new session names the mode for new sessions as the agent does, where
/// there is such a mode and such a name, and names none where not.
pub proof fn new_session_requests_name_the_mode(provider: AcpProviderView, mode: GooseMode)
    ensures
        provider.new_session() is NewSession,
        provider.stored_mode == Some(mode) && provider.mode_mapping.contains_key(mode)
            ==> provider.new_session()->stored_mode_id == Some(provider.mode_mapping[mode]),
        provider.stored_mode == Some(mode) && !provider.mode_mapping.contains_key(mode)
            ==> provider.new_session()->stored_mode_id is None,
        provider.stored_mode is None ==> provider.new_session()->stored_mode_id is None,
{
}

/// Noting a tool call as denied, or no longer so, concerns that tool call and nothing else.
pub proof fn denials_concern_one_tool_call(
    provider: AcpProviderView,
    id: Seq<char>,
    other: Seq<char>,
)
    ensures
        ({
            let denied = provider.with_rejection(id);
            let cleared = provider.without_rejection(id);
            &&& denied == (AcpProviderView { rejected: denied.rejected, ..provider })
            &&& cleared == (AcpProviderView { rejected: cleared.rejected, ..provider })
            &&& denied.rejected.contains(id)
            &&& !cleared.rejected.contains(id)
            &&& other != id ==> denied.rejected.contains(other) == provider.rejected.contains(other)
            &&& other != id ==> cleared.rejected.contains(other) == provider.rejected.contains(
                other,
            )
        }),
{
}

/// A decision that permits a tool call leaves the provider as it is; any other notes that tool
/// call as denied, and no other.
pub proof fn decisions_are_noted(
    provider: AcpProviderView,
    id: Seq<char>,
    decision: PermissionDecision,
    other: Seq<char>,
)
    ensures
        decision is AllowOnce || decision is AllowAlways ==> provider.decided(id, decision)
            == provider,
        !(decision is AllowOnce) && !(decision is AllowAlways) ==> ({
            let after = provider.decided(id, decision);
            &&& after == (AcpProviderView { rejected: after.rejected, ..provider })
            &&& after.rejected.contains(id)
            &&& other != id ==> after.rejected.contains(other) == provider.rejected.contains(other)
        }),
{
}

/// Opening or closing a question concerns that question and nothing else. Who waits for an
/// answer is who opened the question last.
pub proof fn questions_concern_one_tool_call(
    provider: AcpProviderView,
    id: Seq<char>,
    ticket: u64,
    other: Seq<char>,
)
    ensures
        ({
            let opened = provider.with_question(id, ticket);
            let closed = provider.without_question(id);
            &&& opened == (AcpProviderView { pending: opened.pending, ..provider })
            &&& closed == (AcpProviderView { pending: closed.pending, ..provider })
            &&& opened.pending.contains_key(id) && opened.pending[id] == ticket
            &&& !closed.pending.contains_key(id)
            &&& other != id ==> opened.pending.contains_key(other)
                == provider.pending.contains_key(other) && opened.pending[other]
                == provider.pending[other]
            &&& other != id ==> closed.pending.contains_key(other)
                == provider.pending.contains_key(other) && closed.pending[other]
                == provider.pending[other]
        }),
        provider.pending.contains_key(id) ==> provider.waiting(id) == Some(provider.pending[id]),
        !provider.pending.contains_key(id) ==> provider.waiting(id) is None,
{
}

/// A change of mode asks the agent's own session for the mode that was asked for, under the
/// option with the id "mode" or by the method for modes, whatever else the session says of
/// itself.
pub proof fn mode_requests_ask_for_the_mode(
    provider: AcpProviderView,
    goose_id: Seq<char>,
    mode_id: Seq<char>,
)
    ensures
        match provider.mode_request(goose_id, mode_id) {
            RequestView::SetConfigOption { session_id, config_id, value } => session_id
                == provider.sessions[goose_id].session_id && config_id == "mode"@ && value
                == mode_id && says_option(provider.sessions[goose_id], CategoryView::Mode),
            RequestView::SetMode { session_id, mode_id: asked } => session_id
                == provider.sessions[goose_id].session_id && asked == mode_id && !says_option(
                provider.sessions[goose_id],
                CategoryView::Mode,
            ),
            _ => false,
        },
{
}

/// Telling of a model asks the agent's own session for the model that was asked for, under the
/// option with the id "model" or by the method for models, whatever else the session says of
/// itself.
pub proof fn model_requests_ask_for_the_model(
    provider: AcpProviderView,
    goose_id: Seq<char>,
    model_name: Seq<char>,
)
    ensures
        match provider.model_request(goose_id, model_name) {
            RequestView::SetConfigOption { session_id, config_id, value } => session_id
                == provider.sessions[goose_id].session_id && config_id == "model"@ && value
                == model_name && says_option(provider.sessions[goose_id], CategoryView::Model),
            RequestView::SetModel { session_id, model_id } => session_id
                == provider.sessions[goose_id].session_id && model_id == model_name && !says_option(
                provider.sessions[goose_id],
                CategoryView::Model,
            ),
            _ => false,
        },
{
}

/// Whether one of the options that a session came with is about this category.
pub open spec fn says_option(session: NewSessionView, category: CategoryView) -> bool {
    session.config_options is Some && exists|i: int|
        0 <= i < session.config_options->0.len() && (
        #[trigger] session.config_options->0[i]).category == Some(category)
}

/// A session advertises an option about a category just where one of the options that it came
/// with is about that category, whichever it is.
pub proof fn options_are_advertised(session: NewSessionView, category: CategoryView)
    ensures
        session.advertises(category) <==> says_option(session, category),
{
}

/// The models of a session are those that it came with, and none where it came with none.
pub proof fn sessions_offer_their_models(session: NewSessionView)
    ensures
        session.model_ids is Some ==> session.models() == session.model_ids->0,
        session.model_ids is None ==> session.models().len() == 0,
{
}

/// A listed session that goose knows stands in its place under goose's id, with all else as
/// the agent says; one that goose does not know is left out.
pub proof fn sessions_are_listed_in_their_places(
    left: Seq<SessionInfoView>,
    info: SessionInfoView,
    right: Seq<SessionInfoView>,
    ids: Map<Seq<char>, Seq<char>>,
)
    ensures
        ({
            let listed = crate::session::under_goose_ids(left.push(info) + right, ids);
            let first = crate::session::under_goose_ids(left, ids);
            let rest = crate::session::under_goose_ids(right, ids);
            let own = listed[first.len() as int];
            &&& ids.contains_key(info.session_id) ==> listed == first.push(own) + rest
                && own.session_id == ids[info.session_id] && own.cwd == info.cwd
                && own.additional_directories == info.additional_directories && own.title
                == info.title && own.updated_at == info.updated_at && own.meta == info.meta
            &&& !ids.contains_key(info.session_id) ==> listed == first + rest
        }),
{
    let rename = |info: SessionInfoView| crate::session::under_goose_id(info, ids);
    assert(left.push(info) =~= left + seq![info]);
    crate::laws::filter_map_distributes(left.push(info), right, rename);
    crate::laws::filter_map_distributes(left, seq![info], rename);
    Seq::lemma_filter_map_singleton(info, rename);
    match rename(info) {
        Some(own) => {
            assert(left.filter_map(rename) + seq![own] =~= left.filter_map(rename).push(own));
        },
        None => {
            assert(left.filter_map(rename) + Seq::<SessionInfoView>::empty() =~= left.filter_map(
                rename,
            ));
        },
    }
}

/// What the user chose is carried out, each choice by the decision that bears its name, and a
/// decision denies unless it is one of the two that permit.
pub proof fn choices_are_carried_out(permission: Permission, decision: PermissionDecision)
    ensures
        match permission {
            Permission::AlwaysAllow => PermissionDecision::of(permission) is AllowAlways,
            Permission::AllowOnce => PermissionDecision::of(permission) is AllowOnce,
            Permission::AlwaysDeny => PermissionDecision::of(permission) is RejectAlways,
            Permission::DenyOnce => PermissionDecision::of(permission) is RejectOnce,
            Permission::Cancel => PermissionDecision::of(permission) is Cancel,
        },
        decision.rejects() <==> !(decision is AllowAlways) && !(decision is AllowOnce),
{
}

/// A mode decides alone just where it is automatic, which permits once, or chat, which denies
/// once.
pub proof fn modes_decide_alone(mode: GooseMode)
    ensures
        mode is Auto ==> crate::mode::mode_decision(mode) == Some(PermissionDecision::AllowOnce),
        mode is Chat ==> crate::mode::mode_decision(mode) == Some(PermissionDecision::RejectOnce),
        mode is Approve || mode is SmartApprove ==> crate::mode::mode_decision(mode) is None,
{
}

/// A mode has one name, and a text is the name of a mode just where it is one of the four.
pub proof fn modes_have_their_names(name: Seq<char>)
    ensures
        crate::mode::mode_named(name) == Some(GooseMode::Auto) <==> name == "auto"@,
        crate::mode::mode_named(name) == Some(GooseMode::Approve) <==> name == "approve"@,
        crate::mode::mode_named(name) == Some(GooseMode::SmartApprove) <==> name
            == "smart_approve"@,
        crate::mode::mode_named(name) == Some(GooseMode::Chat) <==> name == "chat"@,
        GooseMode::Auto.name() == "auto"@,
        GooseMode::Approve.name() == "approve"@,
        GooseMode::SmartApprove.name() == "smart_approve"@,
        GooseMode::Chat.name() == "chat"@,
{
    crate::mode::mode_names_round_trip(GooseMode::Auto, name);
    crate::mode::mode_names_round_trip(GooseMode::Approve, name);
    crate::mode::mode_names_round_trip(GooseMode::SmartApprove, name);
    crate::mode::mode_names_round_trip(GooseMode::Chat, name);
}

/// A mapping of modes holds for each mode the name that was given for it, and none where none
/// was given.
pub proof fn mappings_hold_their_names(mapping: ModeMapping)
    ensures
        ({
            let names = mapping.deep_view();
            &&& names.contains_key(GooseMode::Auto) == (mapping.auto is Some)
            &&& names.contains_key(GooseMode::Approve) == (mapping.approve is Some)
            &&& names.contains_key(GooseMode::SmartApprove) == (mapping.smart_approve is Some)
            &&& names.contains_key(GooseMode::Chat) == (mapping.chat is Some)
            &&& mapping.auto matches Some(name) ==> names[GooseMode::Auto] == name@
            &&& mapping.approve matches Some(name) ==> names[GooseMode::Approve] == name@
            &&& mapping.smart_approve matches Some(name) ==> names[GooseMode::SmartApprove] == name@
            &&& mapping.chat matches Some(name) ==> names[GooseMode::Chat] == name@
        }),
{
}

} // verus!
