//! What the agent says of its sessions, and what is read off it.
use vstd::prelude::*;

use vstd::hash_map::StringHashMap;

use crate::deep::DeepClone;
use crate::json::{JsonValue, JsonView};
use crate::text::{contains_text, same_text};

verus! {

/// What an option of a session is about.
#[derive(Debug, PartialEq, Eq)]
pub enum SessionConfigOptionCategory {
    Mode,
    Model,
    ThoughtLevel,
    Other(String),
}

/// What a [`SessionConfigOptionCategory`] stands for.
pub enum CategoryView {
    Mode,
    Model,
    ThoughtLevel,
    Other(Seq<char>),
}

impl DeepView for SessionConfigOptionCategory {
    type V = CategoryView;

    open spec fn deep_view(&self) -> Self::V {
        match self {
            SessionConfigOptionCategory::Mode => CategoryView::Mode,
            SessionConfigOptionCategory::Model => CategoryView::Model,
            SessionConfigOptionCategory::ThoughtLevel => CategoryView::ThoughtLevel,
            SessionConfigOptionCategory::Other(name) => CategoryView::Other(name@),
        }
    }
}

impl DeepClone for SessionConfigOptionCategory {
    fn deep_clone(&self) -> (copy: Self) {
        match self {
            SessionConfigOptionCategory::Mode => SessionConfigOptionCategory::Mode,
            SessionConfigOptionCategory::Model => SessionConfigOptionCategory::Model,
            SessionConfigOptionCategory::ThoughtLevel => SessionConfigOptionCategory::ThoughtLevel,
            SessionConfigOptionCategory::Other(name) => SessionConfigOptionCategory::Other(
                name.clone(),
            ),
        }
    }
}

impl SessionConfigOptionCategory {
    /// Whether both categories are the same.
    pub fn is_same(&self, other: &SessionConfigOptionCategory) -> (same: bool)
        ensures
            same == (self.deep_view() == other.deep_view()),
    {
        match (self, other) {
            (SessionConfigOptionCategory::Mode, SessionConfigOptionCategory::Mode) => true,
            (SessionConfigOptionCategory::Model, SessionConfigOptionCategory::Model) => true,
            (
                SessionConfigOptionCategory::ThoughtLevel,
                SessionConfigOptionCategory::ThoughtLevel,
            ) => true,
            (
                SessionConfigOptionCategory::Other(left),
                SessionConfigOptionCategory::Other(right),
            ) => same_text(left.as_str(), right.as_str()),
            _ => false,
        }
    }
}

/// An option of a session: what it is about, if it says so, and the value that is selected, if
/// it is a choice among values.
#[derive(Debug, PartialEq, Eq)]
pub struct SessionConfigOption {
    pub category: Option<SessionConfigOptionCategory>,
    pub selected: Option<String>,
}

/// What a [`SessionConfigOption`] stands for.
pub struct ConfigOptionView {
    pub category: Option<CategoryView>,
    pub selected: Option<Seq<char>>,
}

impl DeepView for SessionConfigOption {
    type V = ConfigOptionView;

    open spec fn deep_view(&self) -> Self::V {
        ConfigOptionView {
            category: self.category.deep_view(),
            selected: self.selected.deep_view(),
        }
    }
}

impl DeepClone for SessionConfigOption {
    fn deep_clone(&self) -> (copy: Self) {
        SessionConfigOption {
            category: self.category.deep_clone(),
            selected: self.selected.deep_clone(),
        }
    }
}

impl SessionConfigOption {
    /// Whether this option is about `category`.
    pub fn is_about(&self, category: &SessionConfigOptionCategory) -> (about: bool)
        ensures
            about == (self.deep_view().category == Some(category.deep_view())),
    {
        match &self.category {
            Some(own) => own.is_same(category),
            None => false,
        }
    }
}

/// The modes that a session offers, and the one it is in.
#[derive(Debug, PartialEq, Eq)]
pub struct SessionModeState {
    pub current_mode_id: String,
    pub available_mode_ids: Vec<String>,
}

/// What a [`SessionModeState`] stands for.
pub struct ModeStateView {
    pub current: Seq<char>,
    pub available: Seq<Seq<char>>,
}

impl DeepView for SessionModeState {
    type V = ModeStateView;

    open spec fn deep_view(&self) -> Self::V {
        ModeStateView {
            current: self.current_mode_id@,
            available: self.available_mode_ids.deep_view(),
        }
    }
}

impl ModeStateView {
    /// Whether the session is in this mode or offers it.
    pub open spec fn has(self, mode_id: Seq<char>) -> bool {
        self.current == mode_id || self.available.contains(mode_id)
    }
}

impl SessionModeState {
    /// Whether the session is in this mode or offers it.
    pub fn has(&self, mode_id: &str) -> (has: bool)
        ensures
            has == self.deep_view().has(mode_id@),
    {
        same_text(self.current_mode_id.as_str(), mode_id) || contains_text(
            &self.available_mode_ids,
            mode_id,
        )
    }
}

impl DeepClone for SessionModeState {
    fn deep_clone(&self) -> (copy: Self) {
        SessionModeState {
            current_mode_id: self.current_mode_id.clone(),
            available_mode_ids: self.available_mode_ids.deep_clone(),
        }
    }
}

/// A session that the agent created: its id and, as far as the agent says anything of them,
/// its modes, the ids of the models it offers and its options. The agent's answer stands
/// beside them as it came.
#[derive(Debug, PartialEq, Eq)]
pub struct NewSessionResponse {
    pub session_id: String,
    pub modes: Option<SessionModeState>,
    pub model_ids: Option<Vec<String>>,
    pub config_options: Option<Vec<SessionConfigOption>>,
    pub answer: JsonValue,
}

/// What a [`NewSessionResponse`] stands for.
pub struct NewSessionView {
    pub session_id: Seq<char>,
    pub modes: Option<ModeStateView>,
    pub model_ids: Option<Seq<Seq<char>>>,
    pub config_options: Option<Seq<ConfigOptionView>>,
    pub answer: JsonView,
}

impl DeepView for NewSessionResponse {
    type V = NewSessionView;

    open spec fn deep_view(&self) -> Self::V {
        NewSessionView {
            session_id: self.session_id@,
            modes: self.modes.deep_view(),
            model_ids: self.model_ids.deep_view(),
            config_options: self.config_options.deep_view(),
            answer: self.answer.deep_view(),
        }
    }
}

impl DeepClone for NewSessionResponse {
    fn deep_clone(&self) -> (copy: Self) {
        NewSessionResponse {
            session_id: self.session_id.clone(),
            modes: self.modes.deep_clone(),
            model_ids: self.model_ids.deep_clone(),
            config_options: self.config_options.deep_clone(),
            answer: self.answer.deep_clone(),
        }
    }
}

impl NewSessionView {
    /// Whether the agent advertised an option about `category` for this session.
    pub open spec fn advertises(self, category: CategoryView) -> bool {
        self.config_options matches Some(options) && exists|i: int|
            0 <= i < options.len() && (#[trigger] options[i]).category == Some(category)
    }

    /// The models that this session offers; none where the agent says nothing of them.
    pub open spec fn models(self) -> Seq<Seq<char>> {
        match self.model_ids {
            Some(ids) => ids,
            None => Seq::empty(),
        }
    }
}

impl NewSessionResponse {
    /// Whether the agent advertised an option about `category` for this session.
    pub fn has_config_option(&self, category: &SessionConfigOptionCategory) -> (advertised: bool)
        ensures
            advertised == self.deep_view().advertises(category.deep_view()),
    {
        match &self.config_options {
            Some(options) => {
                let ghost views = options.deep_view();
                for i in 0..options.len()
                    invariant
                        self.deep_view().config_options == Some(views),
                        views == options.deep_view(),
                        forall|j: int|
                            0 <= j < i ==> (#[trigger] views[j]).category != Some(
                                category.deep_view(),
                            ),
                {
                    assert(views[i as int] == options[i as int].deep_view());
                    if options[i].is_about(category) {
                        return true;
                    }
                }
                false
            },
            None => false,
        }
    }

    /// The models that this session offers; none where the agent says nothing of them.
    pub fn into_models(self) -> (models: Vec<String>)
        ensures
            models.deep_view() == self.deep_view().models(),
    {
        match self.model_ids {
            Some(ids) => ids,
            None => {
                let none: Vec<String> = Vec::new();
                assert(none.deep_view() =~= Seq::empty());
                none
            },
        }
    }
}

/// A session in the agent's list.
#[derive(Debug, PartialEq, Eq)]
pub struct SessionInfo {
    pub session_id: String,
    pub cwd: String,
    pub additional_directories: Vec<String>,
    pub title: Option<String>,
    pub updated_at: Option<String>,
    pub meta: Option<JsonValue>,
}

/// What a [`SessionInfo`] stands for.
pub struct SessionInfoView {
    pub session_id: Seq<char>,
    pub cwd: Seq<char>,
    pub additional_directories: Seq<Seq<char>>,
    pub title: Option<Seq<char>>,
    pub updated_at: Option<Seq<char>>,
    pub meta: Option<JsonView>,
}

impl DeepView for SessionInfo {
    type V = SessionInfoView;

    open spec fn deep_view(&self) -> Self::V {
        SessionInfoView {
            session_id: self.session_id@,
            cwd: self.cwd@,
            additional_directories: self.additional_directories.deep_view(),
            title: self.title.deep_view(),
            updated_at: self.updated_at.deep_view(),
            meta: self.meta.deep_view(),
        }
    }
}

/// A page of the agent's list of sessions.
#[derive(Debug, PartialEq, Eq)]
pub struct ListSessionsResponse {
    pub sessions: Vec<SessionInfo>,
    pub next_cursor: Option<String>,
    pub meta: Option<JsonValue>,
}

impl ListSessionsResponse {
    /// A page with these sessions that is the only one.
    pub fn new(sessions: Vec<SessionInfo>) -> (response: ListSessionsResponse)
        ensures
            response.sessions == sessions,
            response.next_cursor is None,
            response.meta is None,
    {
        ListSessionsResponse { sessions, next_cursor: None, meta: None }
    }
}

/// A listed session under the id that goose knows it by, with all else kept; `None` for a
/// session that goose does not know.
pub open spec fn under_goose_id(
    info: SessionInfoView,
    acp_to_goose: Map<Seq<char>, Seq<char>>,
) -> Option<SessionInfoView> {
    if acp_to_goose.contains_key(info.session_id) {
        Some(SessionInfoView { session_id: acp_to_goose[info.session_id], ..info })
    } else {
        None
    }
}

/// The ids that goose knows the agent's sessions by, found by the agent's ids.
pub struct GooseIds {
    ids: StringHashMap<String>,
}

impl View for GooseIds {
    type V = Map<Seq<char>, Seq<char>>;

    closed spec fn view(&self) -> Self::V {
        self.ids@.map_values(|id: String| id@)
    }
}

impl GooseIds {
    /// No ids.
    pub fn new() -> (ids: GooseIds)
        ensures
            ids@ == Map::<Seq<char>, Seq<char>>::empty(),
    {
        let ids = GooseIds { ids: StringHashMap::new() };
        assert(ids@ =~= Map::empty());
        ids
    }

    /// Makes `goose_id` the id of the agent's session `acp_id`.
    pub fn insert(&mut self, acp_id: String, goose_id: String)
        ensures
            final(self)@ == old(self)@.insert(acp_id@, goose_id@),
    {
        self.ids.insert(acp_id, goose_id);
        assert(self@ =~= old(self)@.insert(acp_id@, goose_id@));
    }

    /// The id that goose knows the agent's session `acp_id` by.
    pub fn get(&self, acp_id: &str) -> (goose_id: Option<&String>)
        ensures
            match goose_id {
                Some(id) => self@.contains_key(acp_id@) && id@ == self@[acp_id@],
                None => !self@.contains_key(acp_id@),
            },
    {
        self.ids.get(acp_id)
    }
}

/// Of the listed sessions those that goose knows, in order, each under the id that goose knows
/// it by.
pub open spec fn under_goose_ids(
    infos: Seq<SessionInfoView>,
    acp_to_goose: Map<Seq<char>, Seq<char>>,
) -> Seq<SessionInfoView> {
    infos.filter_map(|info: SessionInfoView| under_goose_id(info, acp_to_goose))
}

/// The listed sessions that goose knows, in order, each under the id that goose knows it by.
pub fn map_sessions_to_goose_ids(
    response: ListSessionsResponse,
    acp_to_goose: &GooseIds,
) -> (mapped: ListSessionsResponse)
    ensures
        mapped.sessions.deep_view() == under_goose_ids(
            response.sessions.deep_view(),
            acp_to_goose@,
        ),
        mapped.next_cursor is None,
        mapped.meta is None,
{
    let mut sessions: Vec<SessionInfo> = Vec::new();
    let listed = response.sessions;
    let ghost infos = listed@;
    let ghost views = listed.deep_view();
    let ghost rename = |info: SessionInfoView| under_goose_id(info, acp_to_goose@);
    assert(sessions.deep_view() =~= views.take(0).filter_map(rename));
    for info in walk: listed
        invariant
            rename == (|info: SessionInfoView| under_goose_id(info, acp_to_goose@)),
            walk.seq() == infos,
            views.len() == infos.len(),
            forall|j: int| 0 <= j < infos.len() ==> #[trigger] infos[j].deep_view() == views[j],
            sessions.deep_view() == views.take(walk.index()).filter_map(rename),
    {
        let ghost i = walk.index();
        proof {
            assert(views.take(i + 1).drop_last() =~= views.take(i));
            assert(info.deep_view() == views[i]);
        }
        if let Some(goose_id) = acp_to_goose.get(info.session_id.as_str()) {
            sessions.push(
                SessionInfo {
                    session_id: goose_id.clone(),
                    cwd: info.cwd,
                    additional_directories: info.additional_directories,
                    title: info.title,
                    updated_at: info.updated_at,
                    meta: info.meta,
                },
            );
        }
        assert(sessions.deep_view() =~= views.take(i + 1).filter_map(rename));
    }
    assert(views.take(views.len() as int) =~= views);
    ListSessionsResponse::new(sessions)
}

} // verus!
