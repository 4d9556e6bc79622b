//! The provider: its sessions, the requests it makes of its client loop, and what the answers
//! do to it.
use vstd::prelude::*;

use vstd::hash_map::StringHashMap;
use vstd::hash_set::StringHashSet;

use crate::deep::DeepClone;
use crate::json::{JsonValue, JsonView};
use crate::mode::{
    GooseMode, ModeMapping, PermissionConfirmation, PermissionDecision, PermissionRouting,
};
use crate::protocol::{agent_method_names, AcpError, ProviderError, Reply, RpcError};
use crate::request::{ClientRequest, RequestView};
use crate::servers::{McpServer, McpServerView};
use crate::session::{
    map_sessions_to_goose_ids, CategoryView, GooseIds, ListSessionsResponse,
    NewSessionResponse, NewSessionView, SessionConfigOptionCategory,
};
use crate::text::{followed_by, same_text};

verus! {

/// A way in which the agent can authenticate its user. It is carried, not read.
#[verifier::external_type_specification]
#[verifier::external_body]
pub struct ExAuthMethod(sacp::schema::AuthMethod);

/// The model that a conversation is held with.
#[derive(Debug, PartialEq, Eq)]
pub struct ModelConfig {
    pub model_name: String,
}

impl DeepView for ModelConfig {
    type V = Seq<char>;

    open spec fn deep_view(&self) -> Self::V {
        self.model_name@
    }
}

impl DeepClone for ModelConfig {
    fn deep_clone(&self) -> (copy: Self) {
        ModelConfig { model_name: self.model_name.clone() }
    }
}

/// How the agent is started and what its sessions are given.
#[derive(Debug, PartialEq, Eq)]
pub struct AcpProviderConfig {
    pub command: String,
    pub args: Vec<String>,
    pub env: Vec<(String, String)>,
    pub env_remove: Vec<String>,
    pub work_dir: String,
    pub mcp_servers: Vec<McpServer>,
    pub session_mode_id: Option<String>,
    pub mode_mapping: ModeMapping,
}

/// What an [`AcpProviderConfig`] stands for.
pub struct ConfigView {
    pub command: Seq<char>,
    pub args: Seq<Seq<char>>,
    pub env: Seq<(Seq<char>, Seq<char>)>,
    pub env_remove: Seq<Seq<char>>,
    pub work_dir: Seq<char>,
    pub mcp_servers: Seq<McpServerView>,
    pub session_mode_id: Option<Seq<char>>,
    pub mode_mapping: Map<GooseMode, Seq<char>>,
}

impl DeepView for AcpProviderConfig {
    type V = ConfigView;

    open spec fn deep_view(&self) -> Self::V {
        ConfigView {
            command: self.command@,
            args: self.args.deep_view(),
            env: self.env.deep_view(),
            env_remove: self.env_remove.deep_view(),
            work_dir: self.work_dir@,
            mcp_servers: self.mcp_servers.deep_view(),
            session_mode_id: self.session_mode_id.deep_view(),
            mode_mapping: self.mode_mapping.deep_view(),
        }
    }
}

impl DeepClone for AcpProviderConfig {
    fn deep_clone(&self) -> (copy: Self) {
        AcpProviderConfig {
            command: self.command.clone(),
            args: self.args.deep_clone(),
            env: self.env.deep_clone(),
            env_remove: self.env_remove.deep_clone(),
            work_dir: self.work_dir.clone(),
            mcp_servers: self.mcp_servers.deep_clone(),
            session_mode_id: self.session_mode_id.deep_clone(),
            mode_mapping: self.mode_mapping.deep_clone(),
        }
    }
}

/// A provider that talks to an agent through a client loop.
///
/// A method that needs an answer from the agent comes in two halves: the first gives the
/// request for the client loop, the second takes what became of it.
pub struct AcpProvider {
    name: String,
    model: ModelConfig,
    mode_mapping: ModeMapping,
    /// The mode that new sessions are put into, if any.
    stored_mode: Option<GooseMode>,
    rejected_tool_calls: StringHashSet,
    pending_confirmations: StringHashMap<u64>,
    goose_to_acp_id: StringHashMap<NewSessionResponse>,
    acp_to_goose_id: GooseIds,
    /// The model that each session was last told of.
    session_model: StringHashMap<String>,
    auth_methods: Vec<sacp::schema::AuthMethod>,
}

/// What an [`AcpProvider`] stands for.
pub struct AcpProviderView {
    pub name: Seq<char>,
    pub model_name: Seq<char>,
    pub mode_mapping: Map<GooseMode, Seq<char>>,
    /// The mode that new sessions are put into: the one that was stored last, if that was
    /// before the first session, or the one that the agent has announced since.
    pub stored_mode: Option<GooseMode>,
    /// The tool calls that were denied and of which the agent has not yet said more.
    pub rejected: Set<Seq<char>>,
    /// The tool calls that wait for the user, with the ticket that each answer goes to.
    pub pending: Map<Seq<char>, u64>,
    /// The agent's sessions, found by goose's ids.
    pub sessions: Map<Seq<char>, NewSessionView>,
    /// Goose's ids, found by the agent's.
    pub goose_ids: Map<Seq<char>, Seq<char>>,
    /// The model that each session was last told of, found by goose's ids.
    pub models: Map<Seq<char>, Seq<char>>,
    pub auth_methods: Seq<sacp::schema::AuthMethod>,
}

impl AcpProviderView {
    /// What holds of every provider: a session that goose knows can be found by the agent's
    /// id of it, and the model it was told of is on record; an id of goose's that is found so
    /// is that of a session.
    pub open spec fn wf(self) -> bool {
        &&& forall|id: Seq<char>| #[trigger]
            self.sessions.contains_key(id) ==> self.models.contains_key(id)
                && self.goose_ids.contains_key(self.sessions[id].session_id)
        &&& forall|acp_id: Seq<char>| #[trigger]
            self.goose_ids.contains_key(acp_id) ==> self.sessions.contains_key(
                self.goose_ids[acp_id],
            )
    }

    /// Whether each of the agent's ids on record is that of the session which goose knows by
    /// the id it leads to. It is so as long as sessions are created only for those of goose's
    /// sessions that have none.
    pub open spec fn ids_are_current(self) -> bool {
        forall|acp_id: Seq<char>| #[trigger]
            self.goose_ids.contains_key(acp_id)
                ==> self.sessions[self.goose_ids[acp_id]].session_id == acp_id
    }

    /// A provider that has no session yet.
    pub open spec fn fresh(
        name: Seq<char>,
        model_name: Seq<char>,
        mode_mapping: Map<GooseMode, Seq<char>>,
        auth_methods: Seq<sacp::schema::AuthMethod>,
    ) -> AcpProviderView {
        AcpProviderView {
            name,
            model_name,
            mode_mapping,
            stored_mode: None,
            rejected: Set::empty(),
            pending: Map::empty(),
            sessions: Map::empty(),
            goose_ids: Map::empty(),
            models: Map::empty(),
            auth_methods,
        }
    }

    /// The provider once a mode has been stored. Before the first session it is the mode that
    /// new sessions are put into; after it, the mode is that of a session which was told of it,
    /// and new sessions are no longer put into the mode that was stored before.
    pub open spec fn with_stored_mode(self, mode: GooseMode) -> AcpProviderView {
        AcpProviderView {
            stored_mode: if self.sessions.is_empty() {
                Some(mode)
            } else {
                None
            },
            ..self
        }
    }

    /// The provider once the mode is one that the agent has announced: where new sessions are
    /// put into a mode, they are put into this one.
    pub open spec fn with_mode_announced(self, mode: GooseMode) -> AcpProviderView {
        AcpProviderView {
            stored_mode: match self.stored_mode {
                Some(_) => Some(mode),
                None => None,
            },
            ..self
        }
    }

    /// The agent's name for the mode that new sessions are put into, if there is such a mode
    /// and the agent has a name for it.
    pub open spec fn stored_mode_id(self) -> Option<Seq<char>> {
        match self.stored_mode {
            Some(mode) => if self.mode_mapping.contains_key(mode) {
                Some(self.mode_mapping[mode])
            } else {
                None
            },
            None => None,
        }
    }

    /// The request for a new session: the stored mode is read here.
    pub open spec fn new_session(self) -> RequestView {
        RequestView::NewSession { stored_mode_id: self.stored_mode_id() }
    }

    /// The session that goose knows by this id, where an id is given and there is one.
    pub open spec fn session(self, goose_id: Option<Seq<char>>) -> Option<NewSessionView> {
        match goose_id {
            Some(id) => if self.sessions.contains_key(id) {
                Some(self.sessions[id])
            } else {
                None
            },
            None => None,
        }
    }

    /// The provider once the agent has created a session for goose's session with this id. A
    /// model that the session was told of before stays on record.
    pub open spec fn with_session(
        self,
        goose_id: Seq<char>,
        session: NewSessionView,
    ) -> AcpProviderView {
        AcpProviderView {
            sessions: self.sessions.insert(goose_id, session),
            goose_ids: self.goose_ids.insert(session.session_id, goose_id),
            models: if self.models.contains_key(goose_id) {
                self.models
            } else {
                self.models.insert(goose_id, self.model_name)
            },
            ..self
        }
    }

    /// The provider once the agent has created a session: nothing changes where the session is
    /// not goose's.
    pub open spec fn after_creation(
        self,
        goose_id: Option<Seq<char>>,
        session: NewSessionView,
    ) -> AcpProviderView {
        match goose_id {
            Some(id) => self.with_session(id, session),
            None => self,
        }
    }

    /// Whether the session that goose knows by this id is known to use this model.
    pub open spec fn model_is(self, goose_id: Seq<char>, model_name: Seq<char>) -> bool {
        self.models.contains_key(goose_id) && self.models[goose_id] == model_name
    }

    /// The provider once the session has been told of the model.
    pub open spec fn with_model(
        self,
        goose_id: Seq<char>,
        model_name: Seq<char>,
    ) -> AcpProviderView {
        AcpProviderView { models: self.models.insert(goose_id, model_name), ..self }
    }

    /// The provider with a tool call noted as denied.
    pub open spec fn with_rejection(self, id: Seq<char>) -> AcpProviderView {
        AcpProviderView { rejected: self.rejected.insert(id), ..self }
    }

    /// The provider with a tool call no longer noted as denied.
    pub open spec fn without_rejection(self, id: Seq<char>) -> AcpProviderView {
        AcpProviderView { rejected: self.rejected.remove(id), ..self }
    }

    /// The provider with a decision about a tool call noted: a denial is, a permission is not.
    pub open spec fn decided(self, id: Seq<char>, decision: PermissionDecision) -> AcpProviderView {
        if decision.rejects() {
            self.with_rejection(id)
        } else {
            self
        }
    }

    /// The ticket that the user's answer about a tool call goes to, if one waits for it.
    pub open spec fn waiting(self, id: Seq<char>) -> Option<u64> {
        if self.pending.contains_key(id) {
            Some(self.pending[id])
        } else {
            None
        }
    }

    /// The provider with a ticket that waits for the user's answer about a tool call.
    pub open spec fn with_question(self, id: Seq<char>, ticket: u64) -> AcpProviderView {
        AcpProviderView { pending: self.pending.insert(id, ticket), ..self }
    }

    /// The provider with nobody waiting for the user's answer about a tool call.
    pub open spec fn without_question(self, id: Seq<char>) -> AcpProviderView {
        AcpProviderView { pending: self.pending.remove(id), ..self }
    }

    /// The request that puts the session into a mode: through the option about modes where the
    /// agent advertises one, else through the method for modes.
    pub open spec fn mode_request(self, goose_id: Seq<char>, mode_id: Seq<char>) -> RequestView {
        let session = self.sessions[goose_id];
        if session.advertises(CategoryView::Mode) {
            RequestView::SetConfigOption {
                session_id: session.session_id,
                config_id: "mode"@,
                value: mode_id,
            }
        } else {
            RequestView::SetMode { session_id: session.session_id, mode_id }
        }
    }

    /// The request that tells the session of a model: through the option about models where
    /// the agent advertises one, else through the method for models.
    pub open spec fn model_request(
        self,
        goose_id: Seq<char>,
        model_name: Seq<char>,
    ) -> RequestView {
        let session = self.sessions[goose_id];
        if session.advertises(CategoryView::Model) {
            RequestView::SetConfigOption {
                session_id: session.session_id,
                config_id: "model"@,
                value: model_name,
            }
        } else {
            RequestView::SetModel { session_id: session.session_id, model_id: model_name }
        }
    }
}

/// Whether the error says that goose's session with this id is unknown.
pub open spec fn says_session_not_found(error: AcpError, goose_id: Seq<char>) -> bool {
    error matches AcpError::Rpc(error) && error.made_of(
        -32602,
        "Invalid params"@,
        Some("Session not found: "@ + goose_id),
    )
}

/// The text of the error that says that goose's session with this id is unknown.
pub open spec fn session_not_found_text(goose_id: Seq<char>) -> Seq<char> {
    crate::protocol::shown_text(
        -32602,
        "Invalid params"@,
        Some("Session not found: "@ + goose_id),
    )
}

/// What is said of a request for a new session that the client loop dropped.
pub open spec fn new_session_cancelled() -> Seq<char> {
    "ACP "@ + "session/new"@ + " cancelled"@
}

/// What is to be done about a change of mode.
#[derive(Debug, PartialEq, Eq)]
pub enum ModeUpdate {
    /// There is no session to tell: the mode is stored.
    Store,
    /// The session is told first.
    Send(ClientRequest),
}

impl View for AcpProvider {
    type V = AcpProviderView;

    closed spec fn view(&self) -> Self::V {
        AcpProviderView {
            name: self.name@,
            model_name: self.model.model_name@,
            mode_mapping: self.mode_mapping.deep_view(),
            stored_mode: self.stored_mode,
            rejected: self.rejected_tool_calls@,
            pending: self.pending_confirmations@,
            sessions: self.goose_to_acp_id@.map_values(
                |session: NewSessionResponse| session.deep_view(),
            ),
            goose_ids: self.acp_to_goose_id@,
            models: self.session_model@.map_values(|model: String| model@),
            auth_methods: self.auth_methods@,
        }
    }
}

impl AcpProvider {
    /// A provider whose agent was started as a process, given what became of the agent's
    /// initialization: the ways to authenticate, where it succeeded.
    pub fn connect(
        name: String,
        model: ModelConfig,
        config: &AcpProviderConfig,
        init: Reply<Vec<sacp::schema::AuthMethod>>,
    ) -> (result: Result<AcpProvider, AcpError>)
        ensures
            match init {
                Reply::Done(auth_methods) => result matches Ok(provider) && provider@
                    == AcpProviderView::fresh(
                    name@,
                    model.model_name@,
                    config.deep_view().mode_mapping,
                    auth_methods@,
                ) && provider@.wf(),
                _ => result matches Err(error) && init.fails_with(
                    "ACP client initialization cancelled"@,
                    error,
                ),
            },
    {
        let auth_methods = match init.settle("ACP client initialization cancelled") {
            Ok(auth_methods) => auth_methods,
            Err(error) => return Err(error),
        };
        Ok(
            AcpProvider::new_with_runtime(
                name,
                model,
                config.mode_mapping.deep_clone(),
                auth_methods,
            ),
        )
    }

    /// A provider whose agent is reached over a given transport, given what became of the
    /// agent's initialization.
    pub fn connect_with_transport(
        name: String,
        model: ModelConfig,
        config: &AcpProviderConfig,
        init: Reply<Vec<sacp::schema::AuthMethod>>,
    ) -> (result: Result<AcpProvider, AcpError>)
        ensures
            match init {
                Reply::Done(auth_methods) => result matches Ok(provider) && provider@
                    == AcpProviderView::fresh(
                    name@,
                    model.model_name@,
                    config.deep_view().mode_mapping,
                    auth_methods@,
                ) && provider@.wf(),
                _ => result matches Err(error) && init.fails_with(
                    "ACP client initialization cancelled"@,
                    error,
                ),
            },
    {
        AcpProvider::connect(name, model, config, init)
    }

    fn new_with_runtime(
        name: String,
        model: ModelConfig,
        mode_mapping: ModeMapping,
        auth_methods: Vec<sacp::schema::AuthMethod>,
    ) -> (provider: AcpProvider)
        ensures
            provider@ == AcpProviderView::fresh(
                name@,
                model.model_name@,
                mode_mapping.deep_view(),
                auth_methods@,
            ),
    {
        let provider = AcpProvider {
            name,
            model,
            mode_mapping,
            stored_mode: None,
            rejected_tool_calls: StringHashSet::new(),
            pending_confirmations: StringHashMap::new(),
            goose_to_acp_id: StringHashMap::new(),
            acp_to_goose_id: GooseIds::new(),
            session_model: StringHashMap::new(),
            auth_methods,
        };
        assert(provider@.sessions =~= Map::empty());
        assert(provider@.models =~= Map::empty());
        provider
    }

    /// The ways in which the agent can authenticate its user.
    pub fn auth_methods(&self) -> (methods: &[sacp::schema::AuthMethod])
        ensures
            methods@ == self@.auth_methods,
    {
        self.auth_methods.as_slice()
    }

    /// The request for a new session, with the mode that new sessions are put into, if any.
    pub fn new_session(&self) -> (request: ClientRequest)
        ensures
            request.deep_view() == self@.new_session(),
    {
        let stored_mode_id = match self.stored_mode {
            Some(mode) => match self.mode_mapping.get(mode) {
                Some(mode_id) => Some(mode_id.clone()),
                None => None,
            },
            None => None,
        };
        ClientRequest::NewSession { stored_mode_id }
    }

    /// The new session, given what became of the request for it.
    pub fn new_session_done(reply: Reply<NewSessionResponse>) -> (result: Result<
        NewSessionResponse,
        AcpError,
    >)
        ensures
            match reply {
                Reply::Done(session) => result == Ok::<_, AcpError>(session),
                _ => result matches Err(error) && reply.fails_with(
                    new_session_cancelled(),
                    error,
                ),
            },
    {
        let names = agent_method_names();
        let cancelled = followed_by(
            followed_by("ACP ", names.session_new.as_str()).as_str(),
            " cancelled",
        );
        reply.settle(cancelled.as_str())
    }

    /// The request for the agent's list of sessions.
    pub fn list_sessions() -> (request: ClientRequest)
        ensures
            request.deep_view() == RequestView::ListSessions,
    {
        ClientRequest::ListSessions
    }

    /// The listed sessions that goose knows, under goose's ids, given what became of the
    /// request for the list.
    pub fn list_sessions_done(&self, reply: Reply<ListSessionsResponse>) -> (result: Result<
        ListSessionsResponse,
        AcpError,
    >)
        ensures
            match reply {
                Reply::Done(listed) => result matches Ok(mapped) && mapped.sessions.deep_view()
                    == crate::session::under_goose_ids(
                    listed.sessions.deep_view(),
                    self@.goose_ids,
                ) && mapped.next_cursor is None && mapped.meta is None,
                _ => result matches Err(error) && reply.fails_with(
                    "ACP request cancelled"@,
                    error,
                ),
            },
    {
        match reply.settle("ACP request cancelled") {
            Ok(listed) => Ok(map_sessions_to_goose_ids(listed, &self.acp_to_goose_id)),
            Err(error) => Err(error),
        }
    }

    /// The agent's id of the session that goose knows by `goose_id`.
    pub fn resolve_acp_session_id(&self, goose_id: &str) -> (result: Result<String, AcpError>)
        ensures
            match result {
                Ok(id) => self@.sessions.contains_key(goose_id@) && id@
                    == self@.sessions[goose_id@].session_id,
                Err(error) => !self@.sessions.contains_key(goose_id@) && says_session_not_found(
                    error,
                    goose_id@,
                ),
            },
    {
        match self.goose_to_acp_id.get(goose_id) {
            Some(session) => Ok(session.session_id.clone()),
            None => {
                let data = followed_by("Session not found: ", goose_id);
                Err(AcpError::Rpc(RpcError::invalid_params(data)))
            },
        }
    }

    /// The request that puts goose's session into a mode by the method for modes.
    pub fn send_set_mode(&self, goose_id: &str, mode_id: String) -> (result: Result<
        ClientRequest,
        AcpError,
    >)
        ensures
            match result {
                Ok(request) => self@.sessions.contains_key(goose_id@) && request.deep_view() == (
                RequestView::SetMode {
                    session_id: self@.sessions[goose_id@].session_id,
                    mode_id: mode_id@,
                }),
                Err(error) => !self@.sessions.contains_key(goose_id@) && says_session_not_found(
                    error,
                    goose_id@,
                ),
            },
    {
        match self.resolve_acp_session_id(goose_id) {
            Ok(session_id) => Ok(ClientRequest::SetMode { session_id, mode_id }),
            Err(error) => Err(error),
        }
    }

    /// The request that tells goose's session of a model by the method for models.
    pub fn send_set_model(&self, goose_id: &str, model_id: String) -> (result: Result<
        ClientRequest,
        AcpError,
    >)
        ensures
            match result {
                Ok(request) => self@.sessions.contains_key(goose_id@) && request.deep_view() == (
                RequestView::SetModel {
                    session_id: self@.sessions[goose_id@].session_id,
                    model_id: model_id@,
                }),
                Err(error) => !self@.sessions.contains_key(goose_id@) && says_session_not_found(
                    error,
                    goose_id@,
                ),
            },
    {
        match self.resolve_acp_session_id(goose_id) {
            Ok(session_id) => Ok(ClientRequest::SetModel { session_id, model_id }),
            Err(error) => Err(error),
        }
    }

    /// The request that sets an option of goose's session.
    pub fn send_set_config_option(
        &self,
        goose_id: &str,
        config_id: String,
        value: String,
    ) -> (result: Result<ClientRequest, AcpError>)
        ensures
            match result {
                Ok(request) => self@.sessions.contains_key(goose_id@) && request.deep_view() == (
                RequestView::SetConfigOption {
                    session_id: self@.sessions[goose_id@].session_id,
                    config_id: config_id@,
                    value: value@,
                }),
                Err(error) => !self@.sessions.contains_key(goose_id@) && says_session_not_found(
                    error,
                    goose_id@,
                ),
            },
    {
        match self.resolve_acp_session_id(goose_id) {
            Ok(session_id) => Ok(ClientRequest::SetConfigOption { session_id, config_id, value }),
            Err(error) => Err(error),
        }
    }

    /// The answer to a request that only has to be carried out, given what became of it.
    pub fn request_done<T>(reply: Reply<T>) -> (result: Result<T, AcpError>)
        ensures
            match reply {
                Reply::Done(answer) => result == Ok::<_, AcpError>(answer),
                _ => result matches Err(error) && reply.fails_with(
                    "ACP request cancelled"@,
                    error,
                ),
            },
    {
        reply.settle("ACP request cancelled")
    }

    /// The request that has the agent delete goose's session.
    pub fn delete_session(&self, goose_id: &str) -> (result: Result<ClientRequest, AcpError>)
        ensures
            match result {
                Ok(request) => self@.sessions.contains_key(goose_id@) && request.deep_view() == (
                RequestView::Untyped {
                    method: "session/delete"@,
                    params: JsonView::Object(
                        seq![
                            (
                                "session_id"@,
                                JsonView::String(self@.sessions[goose_id@].session_id),
                            ),
                        ],
                    ),
                }),
                Err(error) => !self@.sessions.contains_key(goose_id@) && says_session_not_found(
                    error,
                    goose_id@,
                ),
            },
    {
        let session_id = match self.resolve_acp_session_id(goose_id) {
            Ok(session_id) => session_id,
            Err(error) => return Err(error),
        };
        let mut members: Vec<(String, JsonValue)> = Vec::new();
        members.push(("session_id".to_owned(), JsonValue::String(session_id)));
        let params = JsonValue::Object(members);
        proof {
            reveal_with_fuel(crate::json::json_view, 2);
            assert(params.deep_view()->Object_0 =~= seq![
                ("session_id"@, JsonView::String(session_id@)),
            ]);
        }
        Ok(AcpProvider::send_untyped("session/delete", params))
    }

    /// What became of the request to delete a session; what the agent answers to it is not
    /// looked at.
    pub fn delete_session_done(reply: Reply<JsonValue>) -> (result: Result<(), AcpError>)
        ensures
            match reply {
                Reply::Done(_) => result == Ok::<_, AcpError>(()),
                _ => result matches Err(error) && reply.fails_with(
                    "ACP request cancelled"@,
                    error,
                ),
            },
    {
        match AcpProvider::request_done(reply) {
            Ok(_) => Ok(()),
            Err(error) => Err(error),
        }
    }

    /// The request that calls a method of the agent by its name.
    pub fn send_untyped(method: &str, params: JsonValue) -> (request: ClientRequest)
        ensures
            request.deep_view() == (RequestView::Untyped {
                method: method@,
                params: params.deep_view(),
            }),
    {
        ClientRequest::Untyped { method: method.to_owned(), params }
    }

    /// Whether goose's session with this id has been established.
    pub fn has_session(&self, goose_id: &str) -> (known: bool)
        ensures
            known == self@.sessions.contains_key(goose_id@),
    {
        self.goose_to_acp_id.contains_key(goose_id)
    }

    /// Whether any of goose's sessions has been established.
    pub fn has_sessions(&self) -> (known: bool)
        ensures
            known == !self@.sessions.is_empty(),
    {
        let known = !self.goose_to_acp_id.is_empty();
        proof {
            let held = self.goose_to_acp_id@;
            assert(held.dom() =~= self@.sessions.dom());
            if held.is_empty() {
                assert(self@.sessions =~= Map::empty());
            }
            if self@.sessions.is_empty() {
                assert(held =~= Map::empty());
            }
        }
        known
    }

    /// Whether the agent advertised an option about `category` for goose's session.
    pub fn session_has_config_option(
        &self,
        goose_id: &str,
        category: &SessionConfigOptionCategory,
    ) -> (advertised: bool)
        ensures
            advertised == (self@.sessions.contains_key(goose_id@)
                && self@.sessions[goose_id@].advertises(category.deep_view())),
    {
        match self.goose_to_acp_id.get(goose_id) {
            Some(session) => session.has_config_option(category),
            None => false,
        }
    }

    /// Notes that a tool call was denied.
    pub(crate) fn reject_tool_call(&mut self, id: String)
        ensures
            final(self)@ == old(self)@.with_rejection(id@),
    {
        self.rejected_tool_calls.insert(id);
    }

    /// Forgets that a tool call was denied, and says whether it was.
    pub(crate) fn take_rejection(&mut self, id: &str) -> (rejected: bool)
        ensures
            rejected == old(self)@.rejected.contains(id@),
            final(self)@ == old(self)@.without_rejection(id@),
    {
        self.rejected_tool_calls.remove(id)
    }

    /// Opens a question: the answer to it goes to `ticket`. The ticket that waited for an
    /// answer to the same question, if any, is handed back.
    pub(crate) fn await_confirmation(&mut self, request_id: String, ticket: u64) -> (replaced:
        Option<u64>)
        ensures
            replaced == old(self)@.waiting(request_id@),
            final(self)@ == old(self)@.with_question(request_id@, ticket),
    {
        let replaced = match self.pending_confirmations.get(request_id.as_str()) {
            Some(ticket) => Some(*ticket),
            None => None,
        };
        self.pending_confirmations.insert(request_id, ticket);
        replaced
    }

    /// Closes a question. The ticket that waits for an answer to it, if any, is handed back.
    pub(crate) fn drop_confirmation(&mut self, request_id: &str) -> (dropped: Option<u64>)
        ensures
            dropped == old(self)@.waiting(request_id@),
            final(self)@ == old(self)@.without_question(request_id@),
    {
        let dropped = match self.pending_confirmations.get(request_id) {
            Some(ticket) => Some(*ticket),
            None => None,
        };
        self.pending_confirmations.remove(request_id);
        dropped
    }

    /// Takes the user's answer to a question. It goes to the ticket that waits for it and to
    /// nobody else, and the question is no longer open; `None` where nobody waits.
    pub fn handle_permission_confirmation(
        &mut self,
        request_id: &str,
        confirmation: &PermissionConfirmation,
    ) -> (delivery: Option<(u64, PermissionConfirmation)>)
        ensures
            delivery == match old(self)@.waiting(request_id@) {
                Some(ticket) => Some((ticket, *confirmation)),
                None => None,
            },
            final(self)@ == old(self)@.without_question(request_id@),
            old(self)@.wf() ==> final(self)@.wf(),
    {
        match self.drop_confirmation(request_id) {
            Some(ticket) => Some((ticket, *confirmation)),
            None => None,
        }
    }

    /// The session for goose's session with this id, where it has been established; `None`
    /// where one has to be created, for which see [`AcpProvider::session_created`].
    pub fn ensure_session(&self, session_id: Option<&str>) -> (session: Option<
        NewSessionResponse,
    >)
        ensures
            session.deep_view() == self@.session(session_id.deep_view()),
    {
        let session_id = match session_id {
            Some(session_id) => session_id,
            None => return None,
        };
        match self.goose_to_acp_id.get(session_id) {
            Some(session) => Some(session.deep_clone()),
            None => None,
        }
    }

    /// Establishes the session that was created for goose's session with this id, if one was
    /// given, and hands it out, given what became of the request for it.
    pub fn session_created(
        &mut self,
        session_id: Option<&str>,
        reply: Reply<NewSessionResponse>,
    ) -> (result: Result<NewSessionResponse, ProviderError>)
        ensures
            match reply {
                Reply::Done(session) => result matches Ok(created) && created.deep_view()
                    == session.deep_view() && final(self)@ == old(self)@.after_creation(
                    session_id.deep_view(),
                    session.deep_view(),
                ),
                _ => result matches Err(error) && error.text()
                    == "Failed to create ACP session: "@ + reply.error_text(
                    new_session_cancelled(),
                )->0 && final(self)@ == old(self)@,
            },
            old(self)@.wf() ==> final(self)@.wf(),
    {
        let session = match AcpProvider::new_session_done(reply) {
            Ok(session) => session,
            Err(error) => {
                return Err(ProviderError::request_failed("Failed to create ACP session: ", &error));
            },
        };
        if let Some(session_id) = session_id {
            self.goose_to_acp_id.insert(session_id.to_owned(), session.deep_clone());
            self.acp_to_goose_id.insert(session.session_id.clone(), session_id.to_owned());
            if !self.session_model.contains_key(session_id) {
                self.session_model.insert(session_id.to_owned(), self.model.model_name.clone());
            }
            proof {
                let after = old(self)@.with_session(session_id@, session.deep_view());
                assert(self@.sessions =~= after.sessions);
                assert(self@.models =~= after.models);
            }
        }
        Ok(session)
    }

    /// The request that puts a prompt to one of the agent's sessions.
    pub fn prompt(session_id: String, content: Vec<crate::message::ContentBlock>) -> (request:
        ClientRequest)
        ensures
            request.deep_view() == (RequestView::Prompt {
                session_id: session_id@,
                content: content.deep_view(),
            }),
    {
        ClientRequest::Prompt { session_id, content }
    }

    /// The provider's name.
    pub fn get_name(&self) -> (name: &str)
        ensures
            name@ == self@.name,
    {
        self.name.as_str()
    }

    /// The model that the provider was made with.
    pub fn get_model_config(&self) -> (model: ModelConfig)
        ensures
            model.model_name@ == self@.model_name,
    {
        self.model.deep_clone()
    }

    /// Permission requests are put to the user.
    pub fn permission_routing(&self) -> (routing: PermissionRouting)
        ensures
            routing == PermissionRouting::ActionRequired,
    {
        PermissionRouting::ActionRequired
    }

    /// Whether the agent has a name for this mode.
    pub fn maps_mode(&self, mode: GooseMode) -> (mapped: bool)
        ensures
            mapped == self@.mode_mapping.contains_key(mode),
    {
        self.mode_mapping.get(mode).is_some()
    }

    /// What is to be done about a change of mode. Before the first session the mode is only
    /// stored, and read when a session is created: see [`AcpProvider::store_mode`] and
    /// [`AcpProvider::new_session`]. After it, the agent must have a name for the mode.
    pub fn update_mode(&self, session_id: &str, mode: GooseMode) -> (result: Result<
        ModeUpdate,
        ProviderError,
    >)
        requires
            !self@.sessions.is_empty() ==> self@.mode_mapping.contains_key(mode),
        ensures
            match result {
                Ok(ModeUpdate::Store) => self@.sessions.is_empty(),
                Ok(ModeUpdate::Send(request)) => self@.sessions.contains_key(session_id@)
                    && request.deep_view() == self@.mode_request(
                    session_id@,
                    self@.mode_mapping[mode],
                ),
                Err(error) => !self@.sessions.is_empty() && !self@.sessions.contains_key(
                    session_id@,
                ) && error.text() == "Failed to set mode: "@ + session_not_found_text(session_id@),
            },
    {
        if !self.has_sessions() {
            return Ok(ModeUpdate::Store);
        }
        let mode_id = self.mode_mapping.get(mode).unwrap().clone();
        let request = if self.session_has_config_option(
            session_id,
            &SessionConfigOptionCategory::Mode,
        ) {
            self.send_set_config_option(session_id, "mode".to_owned(), mode_id)
        } else {
            self.send_set_mode(session_id, mode_id)
        };
        match request {
            Ok(request) => Ok(ModeUpdate::Send(request)),
            Err(error) => Err(ProviderError::request_failed("Failed to set mode: ", &error)),
        }
    }

    /// Whether the session took the change of mode, given what became of the request for it.
    pub fn update_mode_done(reply: Reply<()>) -> (result: Result<(), ProviderError>)
        ensures
            match reply {
                Reply::Done(()) => result == Ok::<_, ProviderError>(()),
                _ => result matches Err(error) && error.text() == "Failed to set mode: "@
                    + reply.error_text("ACP request cancelled"@)->0,
            },
    {
        match AcpProvider::request_done(reply) {
            Ok(()) => Ok(()),
            Err(error) => Err(ProviderError::request_failed("Failed to set mode: ", &error)),
        }
    }

    /// Stores a mode, and says which is to be put into the cell that the provider shares with
    /// its client loop, given whether its lock could be had. What is stored before the first
    /// session is what new sessions are put into.
    pub fn store_mode(&mut self, locked: bool, mode: GooseMode) -> (result: Result<
        GooseMode,
        ProviderError,
    >)
        ensures
            locked ==> result == Ok::<_, ProviderError>(mode) && final(self)@ == old(
                self,
            )@.with_stored_mode(mode),
            !locked ==> (result matches Err(error) && error.text() == "Failed to update mode"@)
                && final(self)@ == old(self)@,
            old(self)@.wf() ==> final(self)@.wf(),
    {
        if locked {
            self.stored_mode = if self.has_sessions() {
                None
            } else {
                Some(mode)
            };
            Ok(mode)
        } else {
            Err(ProviderError::RequestFailed("Failed to update mode".to_owned()))
        }
    }

    /// Brings the mode that new sessions are put into, if any, in step with the one that the
    /// shared cell holds once the agent has announced a mode. A cell that holds what was stored
    /// changes nothing.
    pub fn mode_announced(&mut self, mode: GooseMode)
        ensures
            final(self)@ == old(self)@.with_mode_announced(mode),
            old(self)@.wf() ==> final(self)@.wf(),
    {
        if self.stored_mode.is_some() {
            self.stored_mode = Some(mode);
        }
    }

    /// The request that tells goose's session of a model; `None` where it was told of that
    /// model last.
    pub fn forward_model(&self, session_id: &str, model_name: &str) -> (result: Result<
        Option<ClientRequest>,
        ProviderError,
    >)
        ensures
            match result {
                Ok(None) => self@.model_is(session_id@, model_name@),
                Ok(Some(request)) => !self@.model_is(session_id@, model_name@)
                    && self@.sessions.contains_key(session_id@) && request.deep_view()
                    == self@.model_request(session_id@, model_name@),
                Err(error) => !self@.model_is(session_id@, model_name@)
                    && !self@.sessions.contains_key(session_id@) && error.text()
                    == "Failed to set model: "@ + session_not_found_text(session_id@),
            },
    {
        if let Some(told) = self.session_model.get(session_id) {
            if same_text(told.as_str(), model_name) {
                return Ok(None);
            }
        }
        let request = if self.session_has_config_option(
            session_id,
            &SessionConfigOptionCategory::Model,
        ) {
            self.send_set_config_option(session_id, "model".to_owned(), model_name.to_owned())
        } else {
            self.send_set_model(session_id, model_name.to_owned())
        };
        match request {
            Ok(request) => Ok(Some(request)),
            Err(error) => Err(ProviderError::request_failed("Failed to set model: ", &error)),
        }
    }

    /// Records the model that goose's session was told of, given what became of the request.
    pub fn model_forwarded(
        &mut self,
        session_id: &str,
        model_name: &str,
        reply: Reply<()>,
    ) -> (result: Result<(), ProviderError>)
        ensures
            match reply {
                Reply::Done(()) => result == Ok::<_, ProviderError>(()) && final(self)@ == old(
                    self,
                )@.with_model(session_id@, model_name@),
                _ => result matches Err(error) && error.text() == "Failed to set model: "@
                    + reply.error_text("ACP request cancelled"@)->0 && final(self)@ == old(self)@,
            },
            old(self)@.wf() ==> final(self)@.wf(),
    {
        match AcpProvider::request_done(reply) {
            Ok(()) => {
                self.session_model.insert(session_id.to_owned(), model_name.to_owned());
                assert(self@.models =~= old(self)@.with_model(session_id@, model_name@).models);
                Ok(())
            },
            Err(error) => Err(ProviderError::request_failed("Failed to set model: ", &error)),
        }
    }

    /// The request behind the list of models: a session that is nobody's.
    pub fn fetch_supported_models(&self) -> (request: ClientRequest)
        ensures
            request.deep_view() == self@.new_session(),
    {
        self.new_session()
    }

    /// The models that the agent offers, given what became of the request behind the list.
    pub fn fetch_supported_models_done(
        &mut self,
        reply: Reply<NewSessionResponse>,
    ) -> (result: Result<Vec<String>, ProviderError>)
        ensures
            match reply {
                Reply::Done(session) => result matches Ok(models) && models.deep_view()
                    == session.deep_view().models(),
                _ => result matches Err(error) && error.text()
                    == "Failed to create ACP session: "@ + reply.error_text(
                    new_session_cancelled(),
                )->0,
            },
            final(self)@ == old(self)@,
    {
        match self.session_created(None, reply) {
            Ok(session) => Ok(session.into_models()),
            Err(error) => Err(error),
        }
    }
}

} // verus!
