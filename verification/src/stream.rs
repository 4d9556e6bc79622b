//! One turn of a conversation: getting the prompt to the agent, and turning what the agent
//! sends meanwhile into messages and answers.
use vstd::prelude::*;

use crate::message::{
    build_action_required_message, messages_to_prompt, BlockView, ContentBlock, Message,
    MessageView, PermissionRequestView, RequestPermissionRequest,
};
use crate::mode::{
    permission_decision_from_mode, GooseMode, Permission, PermissionConfirmation,
    PermissionDecision, PrincipalType,
};
use crate::protocol::{AcpError, ProviderError, Reply};
use crate::provider::{AcpProvider, AcpProviderView, ModelConfig};
use crate::request::{ClientRequest, RequestView};
use crate::session::{NewSessionResponse, NewSessionView};

verus! {

/// Why the agent ended its turn. It is carried, not read.
#[verifier::external_type_specification]
#[verifier::external_body]
pub struct ExStopReason(sacp::schema::StopReason);

/// What the client loop passes on to the turn in progress.
#[derive(Debug, PartialEq, Eq)]
pub enum AcpUpdate {
    Text(String),
    Thought(String),
    ToolCallStart { id: String },
    ToolCallComplete { id: String },
    /// A request for permission. Its answer goes to `ticket`, which no other request shares.
    PermissionRequest { request: RequestPermissionRequest, ticket: u64 },
    Complete(sacp::schema::StopReason),
    Error(String),
}

/// What an [`AcpUpdate`] stands for.
pub enum UpdateView {
    Text(Seq<char>),
    Thought(Seq<char>),
    ToolCallStart { id: Seq<char> },
    ToolCallComplete { id: Seq<char> },
    PermissionRequest { request: PermissionRequestView, ticket: u64 },
    Complete(sacp::schema::StopReason),
    Error(Seq<char>),
}

impl DeepView for AcpUpdate {
    type V = UpdateView;

    open spec fn deep_view(&self) -> Self::V {
        match self {
            AcpUpdate::Text(text) => UpdateView::Text(text@),
            AcpUpdate::Thought(text) => UpdateView::Thought(text@),
            AcpUpdate::ToolCallStart { id } => UpdateView::ToolCallStart { id: id@ },
            AcpUpdate::ToolCallComplete { id } => UpdateView::ToolCallComplete { id: id@ },
            AcpUpdate::PermissionRequest { request, ticket } => UpdateView::PermissionRequest {
                request: request.deep_view(),
                ticket: *ticket,
            },
            AcpUpdate::Complete(reason) => UpdateView::Complete(*reason),
            AcpUpdate::Error(text) => UpdateView::Error(text@),
        }
    }
}

/// What a turn is about: goose's session, the model it is to be held with, and the prompt.
pub struct TurnView {
    pub session_id: Seq<char>,
    pub model_name: Seq<char>,
    pub content: Seq<BlockView>,
}

struct Turn {
    session_id: String,
    model_name: String,
    content: Vec<ContentBlock>,
}

impl Turn {
    spec fn view(&self) -> TurnView {
        TurnView {
            session_id: self.session_id@,
            model_name: self.model_name@,
            content: self.content.deep_view(),
        }
    }
}

/// A turn that waits for its session to be created.
pub struct Creating {
    turn: Turn,
}

/// A turn that waits for its session to be told of the model.
pub struct Forwarding {
    turn: Turn,
    acp_id: String,
}

/// A turn that waits for its prompt to be taken.
pub struct Prompting {
    prompted: (),
}

impl View for Creating {
    type V = TurnView;

    closed spec fn view(&self) -> Self::V {
        self.turn.view()
    }
}

impl Forwarding {
    /// What the turn is about.
    pub closed spec fn turn(&self) -> TurnView {
        self.turn.view()
    }

    /// The agent's id of the session.
    pub closed spec fn acp_id(&self) -> Seq<char> {
        self.acp_id@
    }
}

/// What comes next on the way to the prompt.
pub enum StreamStart {
    /// A session has to be created by this request.
    Create(Creating, ClientRequest),
    /// The session has to be told of the model by this request.
    Forward(Forwarding, ClientRequest),
    /// The prompt has to be sent by this request.
    Prompt(Prompting, ClientRequest),
    /// The turn has failed.
    Fail(ProviderError),
}

/// What a [`StreamStart`] stands for.
pub enum StartView {
    Create { turn: TurnView, request: RequestView },
    Forward { turn: TurnView, acp_id: Seq<char>, request: RequestView },
    Prompt(RequestView),
    Fail(Seq<char>),
}

impl View for StreamStart {
    type V = StartView;

    open spec fn view(&self) -> Self::V {
        match self {
            StreamStart::Create(creating, request) => StartView::Create {
                turn: creating@,
                request: request.deep_view(),
            },
            StreamStart::Forward(forwarding, request) => StartView::Forward {
                turn: forwarding.turn(),
                acp_id: forwarding.acp_id(),
                request: request.deep_view(),
            },
            StreamStart::Prompt(_, request) => StartView::Prompt(request.deep_view()),
            StreamStart::Fail(error) => StartView::Fail(error.text()),
        }
    }
}

impl TurnView {
    /// The request that puts the prompt of this turn to one of the agent's sessions.
    pub open spec fn prompt(self, acp_id: Seq<char>) -> RequestView {
        RequestView::Prompt { session_id: acp_id, content: self.content }
    }

    /// What comes next in a turn once it has its session: the prompt where the session was
    /// last told of the model of this turn, else the model.
    pub open spec fn with_session(
        self,
        provider: AcpProviderView,
        session: NewSessionView,
    ) -> StartView {
        if provider.model_is(self.session_id, self.model_name) {
            StartView::Prompt(self.prompt(session.session_id))
        } else if provider.sessions.contains_key(self.session_id) {
            StartView::Forward {
                turn: self,
                acp_id: session.session_id,
                request: provider.model_request(self.session_id, self.model_name),
            }
        } else {
            StartView::Fail(
                "Failed to set model: "@ + crate::provider::session_not_found_text(self.session_id),
            )
        }
    }

    /// What comes first in a turn: its session, where it has none yet.
    pub open spec fn start(self, provider: AcpProviderView) -> StartView {
        match provider.session(Some(self.session_id)) {
            Some(session) => self.with_session(provider, session),
            None => StartView::Create { turn: self, request: provider.new_session() },
        }
    }
}

impl Turn {
    fn with_session(self, provider: &AcpProvider, session: NewSessionResponse) -> (start:
        StreamStart)
        ensures
            start@ == self.view().with_session(provider@, session.deep_view()),
    {
        match provider.forward_model(self.session_id.as_str(), self.model_name.as_str()) {
            Ok(None) => StreamStart::Prompt(
                Prompting { prompted: () },
                AcpProvider::prompt(session.session_id, self.content),
            ),
            Ok(Some(request)) => StreamStart::Forward(
                Forwarding { turn: self, acp_id: session.session_id },
                request,
            ),
            Err(error) => StreamStart::Fail(error),
        }
    }
}

impl AcpProvider {
    /// Starts a turn of goose's session `session_id`, to be held with the given model, on the
    /// last of the messages that the user wrote and the agent may see.
    pub fn stream(
        &self,
        model_config: &ModelConfig,
        session_id: &str,
        messages: &[Message],
    ) -> (start: StreamStart)
        ensures
            start@ == (TurnView {
                session_id: session_id@,
                model_name: model_config.model_name@,
                content: crate::message::prompt_for(messages.deep_view()),
            }).start(self@),
    {
        let turn = Turn {
            session_id: session_id.to_owned(),
            model_name: model_config.model_name.clone(),
            content: messages_to_prompt(messages),
        };
        match self.ensure_session(Some(session_id)) {
            Some(session) => turn.with_session(self, session),
            None => StreamStart::Create(Creating { turn }, self.new_session()),
        }
    }
}

impl Creating {
    /// Goes on with the turn, given what became of the request for a session.
    pub fn created(
        self,
        provider: &mut AcpProvider,
        reply: Reply<NewSessionResponse>,
    ) -> (start: StreamStart)
        ensures
            match reply {
                Reply::Done(session) => final(provider)@ == old(provider)@.with_session(
                    self@.session_id,
                    session.deep_view(),
                ) && start@ == self@.with_session(final(provider)@, session.deep_view()),
                _ => final(provider)@ == old(provider)@ && start@ == StartView::Fail(
                    "Failed to create ACP session: "@ + reply.error_text(
                        crate::provider::new_session_cancelled(),
                    )->0,
                ),
            },
            old(provider)@.wf() ==> final(provider)@.wf(),
    {
        match provider.session_created(Some(self.turn.session_id.as_str()), reply) {
            Ok(session) => self.turn.with_session(provider, session),
            Err(error) => StreamStart::Fail(error),
        }
    }
}

impl Forwarding {
    /// Goes on with the turn, given what became of the request that tells of the model.
    pub fn forwarded(self, provider: &mut AcpProvider, reply: Reply<()>) -> (start: StreamStart)
        ensures
            match reply {
                Reply::Done(()) => final(provider)@ == old(provider)@.with_model(
                    self.turn().session_id,
                    self.turn().model_name,
                ) && start@ == StartView::Prompt(self.turn().prompt(self.acp_id())),
                _ => final(provider)@ == old(provider)@ && start@ == StartView::Fail(
                    "Failed to set model: "@ + reply.error_text("ACP request cancelled"@)->0,
                ),
            },
            old(provider)@.wf() ==> final(provider)@.wf(),
    {
        match provider.model_forwarded(
            self.turn.session_id.as_str(),
            self.turn.model_name.as_str(),
            reply,
        ) {
            Ok(()) => StreamStart::Prompt(
                Prompting { prompted: () },
                AcpProvider::prompt(self.acp_id, self.turn.content),
            ),
            Err(error) => StreamStart::Fail(error),
        }
    }
}

impl Prompting {
    /// The stream of the turn, given whether the client loop took the prompt and the mode that
    /// is stored at that time; `None` stands for a mode whose lock cannot be had.
    pub fn sent(self, taken: bool, goose_mode: Option<GooseMode>) -> (result: Result<
        PromptStream,
        ProviderError,
    >)
        ensures
            match result {
                Ok(stream) => taken && goose_mode == Some(stream.goose_mode())
                    && !stream.suppresses_text(),
                Err(error) => {
                    ||| !taken && error.text() == "Failed to send ACP prompt: "@
                        + "ACP client is unavailable"@
                    ||| taken && goose_mode is None && error.text() == "goose_mode lock poisoned"@
                },
            },
    {
        if !taken {
            let error = AcpError::Message("ACP client is unavailable".to_owned());
            return Err(ProviderError::request_failed("Failed to send ACP prompt: ", &error));
        }
        match goose_mode {
            Some(goose_mode) => Ok(PromptStream { goose_mode, suppress_text: false }),
            None => Err(ProviderError::RequestFailed("goose_mode lock poisoned".to_owned())),
        }
    }
}

/// The stream of a turn. The agent runs its tools itself, so goose sees only texts, thoughts
/// and requests for permission. In chat mode no tool may run, and what the agent says after it
/// has started one is kept back, because it may be the tool's result.
#[derive(Debug, PartialEq, Eq)]
pub struct PromptStream {
    goose_mode: GooseMode,
    suppress_text: bool,
}

/// A question that the user has been asked, and that a turn waits for the answer of.
pub struct Question {
    request_id: String,
    ticket: u64,
}

impl Question {
    /// The tool call that the question is about.
    pub closed spec fn request_id(&self) -> Seq<char> {
        self.request_id@
    }

    /// Where the answer to the agent goes.
    pub closed spec fn ticket(&self) -> u64 {
        self.ticket
    }

    /// The ticket under which the user's answer is delivered and the agent's is given.
    pub fn get_ticket(&self) -> (ticket: u64)
        ensures
            ticket == self.ticket(),
    {
        self.ticket
    }
}

/// What a stream does about an update.
pub enum StreamAction {
    Nothing,
    /// The message goes out.
    Yield(Message),
    /// The agent's request is answered.
    Respond { ticket: u64, decision: PermissionDecision },
    /// The message, if there is one, goes out, and the turn waits for the answer to the
    /// question. `replaced` no longer gets an answer.
    Ask { question: Question, message: Option<Message>, replaced: Option<u64> },
    /// The turn is over.
    Finish,
    /// The turn has failed.
    Fail(ProviderError),
}

/// What a [`StreamAction`] stands for.
pub enum ActionView {
    Nothing,
    Yield(MessageView),
    Respond { ticket: u64, decision: PermissionDecision },
    Ask {
        request_id: Seq<char>,
        ticket: u64,
        message: Option<MessageView>,
        replaced: Option<u64>,
    },
    Finish,
    Fail(Seq<char>),
}

impl View for StreamAction {
    type V = ActionView;

    open spec fn view(&self) -> Self::V {
        match self {
            StreamAction::Nothing => ActionView::Nothing,
            StreamAction::Yield(message) => ActionView::Yield(message.deep_view()),
            StreamAction::Respond { ticket, decision } => ActionView::Respond {
                ticket: *ticket,
                decision: *decision,
            },
            StreamAction::Ask { question, message, replaced } => ActionView::Ask {
                request_id: question.request_id(),
                ticket: question.ticket(),
                message: message.deep_view(),
                replaced: *replaced,
            },
            StreamAction::Finish => ActionView::Finish,
            StreamAction::Fail(error) => ActionView::Fail(error.text()),
        }
    }
}

/// A stream in the course of its turn: what it keeps back, and the provider it works for.
pub struct StreamState {
    pub suppress_text: bool,
    pub provider: AcpProviderView,
}

impl StreamState {
    /// The state after an update, and what is done about it. `None` stands for the end of the
    /// updates.
    pub open spec fn step(self, mode: GooseMode, update: Option<UpdateView>) -> (
        StreamState,
        ActionView,
    ) {
        let provider = self.provider;
        match update {
            None => (self, ActionView::Finish),
            Some(UpdateView::Text(text)) => if self.suppress_text {
                (self, ActionView::Nothing)
            } else {
                (self, ActionView::Yield(MessageView::said(text)))
            },
            Some(UpdateView::Thought(text)) => (
                self,
                ActionView::Yield(MessageView::thought(text)),
            ),
            Some(UpdateView::ToolCallStart { id }) => if mode == GooseMode::Chat {
                (
                    StreamState { suppress_text: true, provider: provider.with_rejection(id) },
                    ActionView::Nothing,
                )
            } else {
                (self, ActionView::Nothing)
            },
            Some(UpdateView::ToolCallComplete { id }) => if provider.rejected.contains(id) {
                (
                    StreamState { provider: provider.without_rejection(id), ..self },
                    ActionView::Yield(MessageView::said("Tool call was denied."@)),
                )
            } else {
                (self, ActionView::Nothing)
            },
            Some(UpdateView::PermissionRequest { request, ticket }) => {
                let id = request.tool_call_id;
                match crate::mode::mode_decision(mode) {
                    Some(decision) => (
                        StreamState { provider: provider.decided(id, decision), ..self },
                        ActionView::Respond { ticket, decision },
                    ),
                    None => (
                        StreamState { provider: provider.with_question(id, ticket), ..self },
                        ActionView::Ask {
                            request_id: id,
                            ticket,
                            message: Some(request.question()),
                            replaced: provider.waiting(id),
                        },
                    ),
                }
            },
            Some(UpdateView::Complete(_)) => (self, ActionView::Finish),
            Some(UpdateView::Error(text)) => (self, ActionView::Fail(text)),
        }
    }
}

impl PromptStream {
    /// The mode that the turn is held in.
    pub closed spec fn goose_mode(&self) -> GooseMode {
        self.goose_mode
    }

    /// Whether texts are kept back.
    pub closed spec fn suppresses_text(&self) -> bool {
        self.suppress_text
    }

    /// This stream, with the provider it works for.
    pub open spec fn state(&self, provider: AcpProviderView) -> StreamState {
        StreamState { suppress_text: self.suppresses_text(), provider }
    }

    /// Takes the next update, or the end of the updates, and says what is to be done about it.
    pub fn next(&mut self, provider: &mut AcpProvider, update: Option<AcpUpdate>) -> (action:
        StreamAction)
        ensures
            (final(self).state(final(provider)@), action@) == old(self).state(
                old(provider)@,
            ).step(old(self).goose_mode(), update.deep_view()),
            final(self).goose_mode() == old(self).goose_mode(),
            old(provider)@.wf() ==> final(provider)@.wf(),
    {
        let update = match update {
            Some(update) => update,
            None => return StreamAction::Finish,
        };
        match update {
            AcpUpdate::Text(text) => {
                if self.suppress_text {
                    StreamAction::Nothing
                } else {
                    StreamAction::Yield(Message::said(text))
                }
            },
            AcpUpdate::Thought(text) => StreamAction::Yield(Message::thought(text)),
            AcpUpdate::ToolCallStart { id } => {
                if self.goose_mode == GooseMode::Chat {
                    self.suppress_text = true;
                    provider.reject_tool_call(id);
                }
                StreamAction::Nothing
            },
            AcpUpdate::ToolCallComplete { id } => {
                if provider.take_rejection(id.as_str()) {
                    StreamAction::Yield(Message::said("Tool call was denied.".to_owned()))
                } else {
                    assert(old(provider)@.rejected.remove(id@) =~= old(provider)@.rejected);
                    StreamAction::Nothing
                }
            },
            AcpUpdate::PermissionRequest { request, ticket } => {
                if let Some(decision) = permission_decision_from_mode(self.goose_mode) {
                    if decision.should_record_rejection() {
                        provider.reject_tool_call(request.tool_call_id);
                    }
                    return StreamAction::Respond { ticket, decision };
                }
                let message = build_action_required_message(&request);
                let replaced = provider.await_confirmation(request.tool_call_id.clone(), ticket);
                let question = Question { request_id: request.tool_call_id, ticket };
                StreamAction::Ask { question, message, replaced }
            },
            AcpUpdate::Complete(_) => StreamAction::Finish,
            AcpUpdate::Error(text) => StreamAction::Fail(ProviderError::RequestFailed(text)),
        }
    }
}

/// What is done once a question has been answered.
#[derive(Debug, PartialEq, Eq)]
pub struct Answer {
    /// Where the decision goes.
    pub ticket: u64,
    pub decision: PermissionDecision,
    /// A ticket that no longer gets an answer.
    pub dropped: Option<u64>,
}

/// What an answer to a question decides. No answer is taken for one that cancels.
pub open spec fn confirmed_decision(
    confirmation: Option<PermissionConfirmation>,
) -> PermissionDecision {
    match confirmation {
        Some(confirmation) => PermissionDecision::of(confirmation.permission),
        None => PermissionDecision::Cancel,
    }
}

impl Question {
    /// Closes the question, given the user's answer; `None` where it will never come.
    pub fn confirmed(
        self,
        provider: &mut AcpProvider,
        confirmation: Option<PermissionConfirmation>,
    ) -> (answer: Answer)
        ensures
            answer.ticket == self.ticket(),
            answer.decision == confirmed_decision(confirmation),
            answer.dropped == old(provider)@.waiting(self.request_id()),
            final(provider)@ == old(provider)@.without_question(self.request_id()).decided(
                self.request_id(),
                answer.decision,
            ),
            old(provider)@.wf() ==> final(provider)@.wf(),
    {
        let confirmation = match confirmation {
            Some(confirmation) => confirmation,
            None => PermissionConfirmation {
                principal_type: PrincipalType::Tool,
                permission: Permission::Cancel,
            },
        };
        let dropped = provider.drop_confirmation(self.request_id.as_str());
        let decision = PermissionDecision::from_permission(confirmation.permission);
        if decision.should_record_rejection() {
            provider.reject_tool_call(self.request_id);
        }
        Answer { ticket: self.ticket, decision, dropped }
    }
}

} // verus!
