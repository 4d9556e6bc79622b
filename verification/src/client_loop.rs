//! The client loop: what it asks of the agent for each request of the provider, and what it
//! makes of the agent's answers.
use vstd::prelude::*;

use crate::json::{JsonValue, JsonView};
use crate::message::{BlockView, ContentBlock};
use crate::protocol::{agent_method_names, AcpError, RpcError};
use crate::provider::{AcpProviderConfig, ConfigView};
use crate::request::{ClientRequest, RequestView};
use crate::servers::{filter_supported_servers, McpCapabilities, McpServer, McpServerView};
use crate::session::{NewSessionResponse, NewSessionView};
use crate::stream::{AcpUpdate, UpdateView};
use crate::text::{contains_text, followed_by, join, same_text};

verus! {

/// What the agent says of itself when it is initialized.
pub struct InitializeResponse {
    pub auth_methods: Vec<sacp::schema::AuthMethod>,
    pub mcp_capabilities: McpCapabilities,
    /// Whether the agent can be told that a session is over.
    pub can_close_sessions: bool,
}

/// A client loop whose agent is not initialized yet.
pub struct AcpClientLoop {
    config: AcpProviderConfig,
}

/// Why a client loop does not come to serve any request: what the provider is told, and what
/// the connection is ended with.
#[derive(Debug, PartialEq, Eq)]
pub struct InitializeFailure {
    pub message: AcpError,
    pub error: RpcError,
}

/// A client loop that serves the requests of its provider, one after the other.
pub struct Serving {
    config: AcpProviderConfig,
    mcp_capabilities: McpCapabilities,
    supports_close: bool,
    session_ids: Vec<String>,
    in_turn: bool,
}

/// What a [`Serving`] stands for.
pub struct ServingView {
    pub config: ConfigView,
    pub mcp_capabilities: McpCapabilities,
    pub supports_close: bool,
    /// The agent's ids of the sessions that the provider was given.
    pub session_ids: Seq<Seq<char>>,
    /// Whether a prompt is with the agent.
    pub in_turn: bool,
}

impl View for Serving {
    type V = ServingView;

    closed spec fn view(&self) -> Self::V {
        ServingView {
            config: self.config.deep_view(),
            mcp_capabilities: self.mcp_capabilities,
            supports_close: self.supports_close,
            session_ids: self.session_ids.deep_view(),
            in_turn: self.in_turn,
        }
    }
}

impl View for AcpClientLoop {
    type V = ConfigView;

    closed spec fn view(&self) -> Self::V {
        self.config.deep_view()
    }
}

impl AcpClientLoop {
    /// A client loop with this configuration.
    pub fn new(config: AcpProviderConfig) -> (client_loop: AcpClientLoop)
        ensures
            client_loop@ == config.deep_view(),
    {
        AcpClientLoop { config }
    }

    /// The agent's method that initializes it.
    pub fn initialize_method() -> (method: String)
        ensures
            method@ == "initialize"@,
    {
        agent_method_names().initialize
    }

    /// Begins to serve, given what came of the agent's initialization: its answer or its
    /// error. The ways to authenticate are for the provider.
    pub fn initialized(self, reply: Result<InitializeResponse, RpcError>) -> (result: Result<
        (Serving, Vec<sacp::schema::AuthMethod>),
        InitializeFailure,
    >)
        ensures
            match reply {
                Ok(response) => result matches Ok(serving) && serving.1 == response.auth_methods
                    && serving.0@ == (ServingView {
                    config: self@,
                    mcp_capabilities: response.mcp_capabilities,
                    supports_close: response.can_close_sessions,
                    session_ids: Seq::empty(),
                    in_turn: false,
                }),
                Err(error) => result matches Err(failure) && failure.message.says(
                    "ACP "@ + "initialize"@ + " failed: "@ + error.text@,
                ) && failure.error.made_of(
                    -32603,
                    "Internal error"@,
                    Some(failure.message.text()),
                ),
            },
    {
        match reply {
            Ok(response) => {
                let serving = Serving {
                    config: self.config,
                    mcp_capabilities: response.mcp_capabilities,
                    supports_close: response.can_close_sessions,
                    session_ids: Vec::new(),
                    in_turn: false,
                };
                assert(serving@.session_ids =~= Seq::empty());
                Ok((serving, response.auth_methods))
            },
            Err(error) => {
                let names = agent_method_names();
                let text = failed(
                    "ACP ",
                    names.initialize.as_str(),
                    " failed: ",
                    error.text.as_str(),
                );
                let error = RpcError::internal_error(Some(text.clone()));
                Err(InitializeFailure { message: AcpError::Message(text), error })
            },
        }
    }
}

fn failed(subject: &str, method: &str, verb: &str, error: &str) -> (text: String)
    ensures
        text@ == subject@ + method@ + verb@ + error@,
{
    followed_by(followed_by(followed_by(subject, method).as_str(), verb).as_str(), error)
}

/// A call of one of the agent's methods.
#[derive(Debug, PartialEq, Eq)]
pub enum AgentCall {
    /// A new session. The mode that was stored for it is wanted again with the answer: see
    /// [`Serving::handle_new_session_request`].
    NewSession { cwd: String, mcp_servers: Vec<McpServer>, stored_mode_id: Option<String> },
    ListSessions,
    SetMode { session_id: String, mode_id: String },
    SetModel { session_id: String, model_id: String },
    SetConfigOption { session_id: String, config_id: String, value: String },
    Prompt { session_id: String, content: Vec<ContentBlock> },
    Untyped { method: String, params: JsonValue },
}

/// What an [`AgentCall`] stands for.
pub enum AgentCallView {
    NewSession {
        cwd: Seq<char>,
        mcp_servers: Seq<McpServerView>,
        stored_mode_id: Option<Seq<char>>,
    },
    ListSessions,
    SetMode { session_id: Seq<char>, mode_id: Seq<char> },
    SetModel { session_id: Seq<char>, model_id: Seq<char> },
    SetConfigOption { session_id: Seq<char>, config_id: Seq<char>, value: Seq<char> },
    Prompt { session_id: Seq<char>, content: Seq<BlockView> },
    Untyped { method: Seq<char>, params: JsonView },
}

impl DeepView for AgentCall {
    type V = AgentCallView;

    open spec fn deep_view(&self) -> Self::V {
        match self {
            AgentCall::NewSession { cwd, mcp_servers, stored_mode_id } =>
                AgentCallView::NewSession {
                cwd: cwd@,
                mcp_servers: mcp_servers.deep_view(),
                stored_mode_id: stored_mode_id.deep_view(),
            },
            AgentCall::ListSessions => AgentCallView::ListSessions,
            AgentCall::SetMode { session_id, mode_id } => AgentCallView::SetMode {
                session_id: session_id@,
                mode_id: mode_id@,
            },
            AgentCall::SetModel { session_id, model_id } => AgentCallView::SetModel {
                session_id: session_id@,
                model_id: model_id@,
            },
            AgentCall::SetConfigOption { session_id, config_id, value } =>
                AgentCallView::SetConfigOption {
                session_id: session_id@,
                config_id: config_id@,
                value: value@,
            },
            AgentCall::Prompt { session_id, content } => AgentCallView::Prompt {
                session_id: session_id@,
                content: content.deep_view(),
            },
            AgentCall::Untyped { method, params } => AgentCallView::Untyped {
                method: method@,
                params: params.deep_view(),
            },
        }
    }
}

/// What is to be done about the mode of a new session.
pub enum ModeStepView {
    /// The session stays in the mode it is in.
    Keep,
    /// The session has to be put into this mode.
    Change(Seq<char>),
    /// The session cannot be put into the mode it should be in, for this reason.
    Refuse(Seq<char>),
}

/// What is to be done about the mode of a new session.
#[derive(Debug, PartialEq, Eq)]
pub enum ModeStep {
    Keep,
    Change(String),
    Refuse(String),
}

impl DeepView for ModeStep {
    type V = ModeStepView;

    open spec fn deep_view(&self) -> Self::V {
        match self {
            ModeStep::Keep => ModeStepView::Keep,
            ModeStep::Change(mode_id) => ModeStepView::Change(mode_id@),
            ModeStep::Refuse(text) => ModeStepView::Refuse(text@),
        }
    }
}

/// The mode that a new session is to be in: the one that was stored for it, where the session
/// has it, else the configured one.
pub open spec fn wanted_mode(
    stored: Option<Seq<char>>,
    configured: Option<Seq<char>>,
    session: NewSessionView,
) -> Option<Seq<char>> {
    match (stored, session.modes) {
        (Some(mode_id), Some(modes)) => if modes.has(mode_id) {
            stored
        } else {
            configured
        },
        _ => configured,
    }
}

/// What is to be done about the mode of a new session, given the mode that sessions are to be
/// in: nothing where none is asked for, where the session has no modes or where it is in that
/// mode; else the session must offer the mode.
pub open spec fn session_mode_step(
    wanted: Option<Seq<char>>,
    session: NewSessionView,
) -> ModeStepView {
    match (wanted, session.modes) {
        (Some(mode_id), Some(modes)) => if modes.current == mode_id {
            ModeStepView::Keep
        } else if modes.available.contains(mode_id) {
            ModeStepView::Change(mode_id)
        } else {
            ModeStepView::Refuse(
                "Requested mode '"@ + mode_id + "' not offered by agent. Available modes: "@
                    + crate::text::joined(modes.available, ", "@),
            )
        },
        _ => ModeStepView::Keep,
    }
}

/// What is to be done about the mode of a new session.
pub fn apply_session_mode(wanted: &Option<String>, session: &NewSessionResponse) -> (step: ModeStep)
    ensures
        step.deep_view() == session_mode_step(wanted.deep_view(), session.deep_view()),
{
    let mode_id = match wanted {
        Some(mode_id) => mode_id,
        None => return ModeStep::Keep,
    };
    let modes = match &session.modes {
        Some(modes) => modes,
        None => return ModeStep::Keep,
    };
    if same_text(modes.current_mode_id.as_str(), mode_id.as_str()) {
        return ModeStep::Keep;
    }
    if !contains_text(&modes.available_mode_ids, mode_id.as_str()) {
        let available = join(&modes.available_mode_ids, ", ");
        return ModeStep::Refuse(
            failed(
                "Requested mode '",
                mode_id.as_str(),
                "' not offered by agent. Available modes: ",
                available.as_str(),
            ),
        );
    }
    ModeStep::Change(mode_id.clone())
}

/// A new session that is being put into the mode it should be in.
pub struct ChangingMode {
    session: NewSessionResponse,
}

impl ChangingMode {
    /// The session.
    pub closed spec fn session(&self) -> NewSessionResponse {
        self.session
    }
}

/// What comes next for a new session.
pub enum NewSessionStep {
    /// The provider gets the session, or an error.
    Deliver(Result<NewSessionResponse, AcpError>),
    /// The session is put into a mode by this call first.
    ChangeMode(ChangingMode, AgentCall),
}

impl ServingView {
    /// The call of the agent that a request comes to.
    pub open spec fn call(self, request: RequestView) -> AgentCallView {
        match request {
            RequestView::NewSession { stored_mode_id } => AgentCallView::NewSession {
                cwd: self.config.work_dir,
                mcp_servers: crate::servers::supported_servers(
                    self.config.mcp_servers,
                    self.mcp_capabilities,
                ),
                stored_mode_id,
            },
            RequestView::ListSessions => AgentCallView::ListSessions,
            RequestView::SetMode { session_id, mode_id } => AgentCallView::SetMode {
                session_id,
                mode_id,
            },
            RequestView::SetModel { session_id, model_id } => AgentCallView::SetModel {
                session_id,
                model_id,
            },
            RequestView::SetConfigOption { session_id, config_id, value } =>
                AgentCallView::SetConfigOption { session_id, config_id, value },
            RequestView::Prompt { session_id, content } => AgentCallView::Prompt {
                session_id,
                content,
            },
            RequestView::Untyped { method, params } => AgentCallView::Untyped { method, params },
        }
    }

    /// The loop once the provider has been given a session.
    pub open spec fn with_session(self, session_id: Seq<char>) -> ServingView {
        ServingView { session_ids: self.session_ids.push(session_id), ..self }
    }

    /// The loop once requests for new sessions have been served, each of which gave the
    /// provider a session or none.
    pub open spec fn after_deliveries(self, deliveries: Seq<Option<Seq<char>>>) -> ServingView
        decreases deliveries.len(),
    {
        if deliveries.len() == 0 {
            self
        } else {
            let before = self.after_deliveries(deliveries.drop_last());
            match deliveries.last() {
                Some(session_id) => before.with_session(session_id),
                None => before,
            }
        }
    }

    /// The sessions that the agent is told are over when the loop ends: all that the provider
    /// was given, in order, if the agent can be told.
    pub open spec fn to_close(self) -> Seq<Seq<char>> {
        if self.supports_close {
            self.session_ids
        } else {
            Seq::empty()
        }
    }
}

impl Serving {
    /// The call of the agent that a request comes to. With a prompt a turn begins.
    pub fn call(&mut self, request: ClientRequest) -> (call: AgentCall)
        ensures
            call.deep_view() == old(self)@.call(request.deep_view()),
            final(self)@ == (ServingView {
                in_turn: old(self)@.in_turn || request is Prompt,
                ..old(self)@
            }),
    {
        match request {
            ClientRequest::NewSession { stored_mode_id } => AgentCall::NewSession {
                cwd: self.config.work_dir.clone(),
                mcp_servers: filter_supported_servers(
                    self.config.mcp_servers.as_slice(),
                    &self.mcp_capabilities,
                ),
                stored_mode_id,
            },
            ClientRequest::ListSessions => AgentCall::ListSessions,
            ClientRequest::SetMode { session_id, mode_id } => AgentCall::SetMode {
                session_id,
                mode_id,
            },
            ClientRequest::SetModel { session_id, model_id } => AgentCall::SetModel {
                session_id,
                model_id,
            },
            ClientRequest::SetConfigOption { session_id, config_id, value } =>
                AgentCall::SetConfigOption { session_id, config_id, value },
            ClientRequest::Prompt { session_id, content } => {
                self.in_turn = true;
                AgentCall::Prompt { session_id, content }
            },
            ClientRequest::Untyped { method, params } => AgentCall::Untyped { method, params },
        }
    }

    /// Whether a prompt is with the agent.
    pub fn in_turn(&self) -> (in_turn: bool)
        ensures
            in_turn == self@.in_turn,
    {
        self.in_turn
    }

    /// Goes on with a new session, given the agent's name for the mode that was stored for it,
    /// if any, and the agent's answer or its error.
    pub fn handle_new_session_request(
        &mut self,
        stored: Option<String>,
        reply: Result<NewSessionResponse, RpcError>,
    ) -> (step: NewSessionStep)
        ensures
            match reply {
                Ok(session) => match session_mode_step(
                    wanted_mode(
                        stored.deep_view(),
                        old(self)@.config.session_mode_id,
                        session.deep_view(),
                    ),
                    session.deep_view(),
                ) {
                    ModeStepView::Keep => step == NewSessionStep::Deliver(Ok(session))
                        && final(self)@ == old(self)@.with_session(session.session_id@),
                    ModeStepView::Change(mode_id) => step matches NewSessionStep::ChangeMode(
                        changing,
                        call,
                    ) && changing.session() == session && call.deep_view() == (
                    AgentCallView::SetMode { session_id: session.session_id@, mode_id })
                        && final(self)@ == old(self)@,
                    ModeStepView::Refuse(reason) => step matches NewSessionStep::Deliver(Err(error))
                        && error.says(reason) && final(self)@ == old(self)@,
                },
                Err(error) => step matches NewSessionStep::Deliver(Err(failure)) && failure.says(
                    "ACP "@ + "session/new"@ + " failed: "@ + error.text@,
                ) && final(self)@ == old(self)@,
            },
    {
        let session = match reply {
            Ok(session) => session,
            Err(error) => {
                let names = agent_method_names();
                let text = failed(
                    "ACP ",
                    names.session_new.as_str(),
                    " failed: ",
                    error.text.as_str(),
                );
                return NewSessionStep::Deliver(Err(AcpError::Message(text)));
            },
        };
        let stored_counts = match (&stored, &session.modes) {
            (Some(mode_id), Some(modes)) => modes.has(mode_id.as_str()),
            _ => false,
        };
        let wanted = if stored_counts {
            &stored
        } else {
            &self.config.session_mode_id
        };
        match apply_session_mode(wanted, &session) {
            ModeStep::Keep => {
                self.remember(session.session_id.clone());
                NewSessionStep::Deliver(Ok(session))
            },
            ModeStep::Change(mode_id) => {
                let session_id = session.session_id.clone();
                NewSessionStep::ChangeMode(
                    ChangingMode { session },
                    AgentCall::SetMode { session_id, mode_id },
                )
            },
            ModeStep::Refuse(text) => NewSessionStep::Deliver(Err(AcpError::Message(text))),
        }
    }

    fn remember(&mut self, session_id: String)
        ensures
            final(self)@ == old(self)@.with_session(session_id@),
    {
        self.session_ids.push(session_id);
        assert(self@.session_ids =~= old(self)@.with_session(session_id@).session_ids);
    }

    /// What the provider gets for a new session that was to be put into a mode, given whether
    /// the agent did so.
    pub fn mode_changed(
        &mut self,
        changing: ChangingMode,
        reply: Result<(), RpcError>,
    ) -> (delivery: Result<NewSessionResponse, AcpError>)
        ensures
            match reply {
                Ok(()) => delivery == Ok::<_, AcpError>(changing.session()) && final(self)@ == old(
                    self,
                )@.with_session(changing.session().session_id@),
                Err(error) => delivery matches Err(failure) && failure.says(
                    "ACP agent rejected "@ + "session/set_mode"@ + ": "@ + error.text@,
                ) && final(self)@ == old(self)@,
            },
    {
        match reply {
            Ok(()) => {
                self.remember(changing.session.session_id.clone());
                Ok(changing.session)
            },
            Err(error) => {
                let names = agent_method_names();
                let text = failed(
                    "ACP agent rejected ",
                    names.session_set_mode.as_str(),
                    ": ",
                    error.text.as_str(),
                );
                Err(AcpError::Message(text))
            },
        }
    }

    /// Ends a turn, given why the agent ended it or its error, and says what the
    /// turn gets to hear last.
    pub fn prompt_answered(
        &mut self,
        reply: Result<sacp::schema::StopReason, RpcError>,
    ) -> (update: AcpUpdate)
        ensures
            update.deep_view() == match reply {
                Ok(reason) => UpdateView::Complete(reason),
                Err(error) => UpdateView::Error(error.text@),
            },
            final(self)@ == (ServingView { in_turn: false, ..old(self)@ }),
    {
        self.in_turn = false;
        match reply {
            Ok(reason) => AcpUpdate::Complete(reason),
            Err(error) => AcpUpdate::Error(error.text),
        }
    }

    /// Ends the loop, and says which sessions the agent is to be told are over.
    pub fn close(self) -> (session_ids: Vec<String>)
        ensures
            session_ids.deep_view() == self@.to_close(),
    {
        if self.supports_close {
            self.session_ids
        } else {
            let none: Vec<String> = Vec::new();
            assert(none.deep_view() =~= Seq::empty());
            none
        }
    }

    /// The agent's method that tells it that a session is over.
    pub fn close_method() -> (method: String)
        ensures
            method@ == "session/close"@,
    {
        agent_method_names().session_close
    }
}

} // verus!
