//! What the agent tells of its sessions by itself, and what that means for the mode and for
//! the turn in progress.
use vstd::prelude::*;

use crate::message::{BlockView, ContentBlock};
use crate::mode::{GooseMode, PermissionDecision};
use crate::protocol::RpcError;
use crate::session::{
    CategoryView, ConfigOptionView, SessionConfigOption, SessionConfigOptionCategory,
};
use crate::stream::{AcpUpdate, UpdateView};

verus! {

/// Something that the agent tells of a session.
#[derive(Debug, PartialEq, Eq)]
pub enum SessionUpdate {
    CurrentModeUpdate { current_mode_id: String },
    ConfigOptionUpdate { config_options: Vec<SessionConfigOption> },
    AgentMessageChunk(ContentBlock),
    AgentThoughtChunk(ContentBlock),
    ToolCall { tool_call_id: String },
    ToolCallUpdate { tool_call_id: String, has_status: bool },
    /// Something that neither the mode nor a turn depends on.
    Other,
}

/// What a [`SessionUpdate`] stands for.
pub enum SessionUpdateView {
    CurrentModeUpdate { current_mode_id: Seq<char> },
    ConfigOptionUpdate { config_options: Seq<ConfigOptionView> },
    AgentMessageChunk(BlockView),
    AgentThoughtChunk(BlockView),
    ToolCall { tool_call_id: Seq<char> },
    ToolCallUpdate { tool_call_id: Seq<char>, has_status: bool },
    Other,
}

impl DeepView for SessionUpdate {
    type V = SessionUpdateView;

    open spec fn deep_view(&self) -> Self::V {
        match self {
            SessionUpdate::CurrentModeUpdate { current_mode_id } =>
                SessionUpdateView::CurrentModeUpdate { current_mode_id: current_mode_id@ },
            SessionUpdate::ConfigOptionUpdate { config_options } =>
                SessionUpdateView::ConfigOptionUpdate {
                config_options: config_options.deep_view(),
            },
            SessionUpdate::AgentMessageChunk(block) => SessionUpdateView::AgentMessageChunk(
                block.deep_view(),
            ),
            SessionUpdate::AgentThoughtChunk(block) => SessionUpdateView::AgentThoughtChunk(
                block.deep_view(),
            ),
            SessionUpdate::ToolCall { tool_call_id } => SessionUpdateView::ToolCall {
                tool_call_id: tool_call_id@,
            },
            SessionUpdate::ToolCallUpdate { tool_call_id, has_status } =>
                SessionUpdateView::ToolCallUpdate {
                tool_call_id: tool_call_id@,
                has_status: *has_status,
            },
            SessionUpdate::Other => SessionUpdateView::Other,
        }
    }
}

impl ConfigOptionView {
    /// The mode that this option selects: it has to be about modes, be a choice among values,
    /// and have the name of a mode selected.
    pub open spec fn selected_mode(self) -> Option<GooseMode> {
        match (self.category, self.selected) {
            (Some(CategoryView::Mode), Some(name)) => crate::mode::mode_named(name),
            _ => None,
        }
    }
}

/// The mode that the last of the options to select one selects, else the mode as it was.
pub open spec fn mode_after_options(mode: GooseMode, options: Seq<ConfigOptionView>) -> GooseMode
    decreases options.len(),
{
    if options.len() == 0 {
        mode
    } else {
        match options.last().selected_mode() {
            Some(selected) => selected,
            None => mode_after_options(mode, options.drop_last()),
        }
    }
}

impl SessionUpdateView {
    /// The mode once the agent has told of this. A name that is that of no mode changes
    /// nothing.
    pub open spec fn mode_after(self, mode: GooseMode) -> GooseMode {
        match self {
            SessionUpdateView::CurrentModeUpdate { current_mode_id } => match
            crate::mode::mode_named(current_mode_id) {
                Some(current) => current,
                None => mode,
            },
            SessionUpdateView::ConfigOptionUpdate { config_options } => mode_after_options(
                mode,
                config_options,
            ),
            _ => mode,
        }
    }

    /// What the turn in progress gets to hear of this, if anything.
    pub open spec fn for_turn(self) -> Option<UpdateView> {
        match self {
            SessionUpdateView::AgentMessageChunk(BlockView::Text(text)) => Some(
                UpdateView::Text(text),
            ),
            SessionUpdateView::AgentThoughtChunk(BlockView::Text(text)) => Some(
                UpdateView::Thought(text),
            ),
            SessionUpdateView::ToolCall { tool_call_id } => Some(
                UpdateView::ToolCallStart { id: tool_call_id },
            ),
            SessionUpdateView::ToolCallUpdate { tool_call_id, has_status } => if has_status {
                Some(UpdateView::ToolCallComplete { id: tool_call_id })
            } else {
                None
            },
            _ => None,
        }
    }
}

fn selected_mode(option: &SessionConfigOption) -> (mode: Option<GooseMode>)
    ensures
        mode == option.deep_view().selected_mode(),
{
    if option.is_about(&SessionConfigOptionCategory::Mode) {
        match &option.selected {
            Some(name) => GooseMode::from_str(name.as_str()),
            None => None,
        }
    } else {
        None
    }
}

impl SessionUpdate {
    /// The mode once the agent has told of this.
    pub fn mode_after(&self, mode: GooseMode) -> (after: GooseMode)
        ensures
            after == self.deep_view().mode_after(mode),
    {
        match self {
            SessionUpdate::CurrentModeUpdate { current_mode_id } => {
                match GooseMode::from_str(current_mode_id.as_str()) {
                    Some(current) => current,
                    None => mode,
                }
            },
            SessionUpdate::ConfigOptionUpdate { config_options } => {
                let ghost views = config_options.deep_view();
                let mut after = mode;
                for i in 0..config_options.len()
                    invariant
                        views == config_options.deep_view(),
                        after == mode_after_options(mode, views.take(i as int)),
                {
                    proof {
                        assert(views.take(i + 1).drop_last() =~= views.take(i as int));
                        assert(views.take(i + 1).last() == config_options[i as int].deep_view());
                    }
                    if let Some(selected) = selected_mode(&config_options[i]) {
                        after = selected;
                    }
                }
                assert(views.take(views.len() as int) =~= views);
                after
            },
            _ => mode,
        }
    }

    /// What the turn in progress gets to hear of this, if there is one.
    pub fn for_turn(self, in_progress: bool) -> (update: Option<AcpUpdate>)
        ensures
            update.deep_view() == if in_progress {
                self.deep_view().for_turn()
            } else {
                None
            },
    {
        if !in_progress {
            return None;
        }
        match self {
            SessionUpdate::AgentMessageChunk(ContentBlock::Text(text)) => Some(
                AcpUpdate::Text(text),
            ),
            SessionUpdate::AgentThoughtChunk(ContentBlock::Text(text)) => Some(
                AcpUpdate::Thought(text),
            ),
            SessionUpdate::ToolCall { tool_call_id } => Some(
                AcpUpdate::ToolCallStart { id: tool_call_id },
            ),
            SessionUpdate::ToolCallUpdate { tool_call_id, has_status } => {
                if has_status {
                    Some(AcpUpdate::ToolCallComplete { id: tool_call_id })
                } else {
                    None
                }
            },
            _ => None,
        }
    }
}

/// What became of handing a request for permission to the turn in progress.
#[derive(Debug, Clone, Copy, PartialEq, Eq, Structural)]
pub enum Handover {
    /// No turn is in progress.
    NoTurn,
    /// The turn no longer listens.
    Closed,
    /// The turn has more waiting for it than it takes.
    Full,
    /// The turn has it.
    Taken,
}

impl Handover {
    /// The agent is told of an internal error unless the turn has its request.
    pub fn check(self) -> (result: Result<(), RpcError>)
        ensures
            match result {
                Ok(()) => self == Handover::Taken,
                Err(error) => self != Handover::Taken && error.made_of(
                    -32603,
                    "Internal error"@,
                    None,
                ),
            },
    {
        match self {
            Handover::Taken => Ok(()),
            _ => Err(RpcError::internal_error(None)),
        }
    }
}

/// What the agent is told about its request for permission.
#[derive(Debug, Clone, Copy, PartialEq, Eq, Structural)]
pub enum PermissionReply {
    /// The answer that stands for this decision.
    Decided(PermissionDecision),
    /// The request was cancelled.
    Cancelled,
}

impl PermissionReply {
    /// What the agent is told, given the decision of the turn; `None` where the turn ended
    /// without one.
    pub fn from_turn(decision: Option<PermissionDecision>) -> (reply: PermissionReply)
        ensures
            reply == match decision {
                Some(decision) => PermissionReply::Decided(decision),
                None => PermissionReply::Cancelled,
            },
    {
        match decision {
            Some(decision) => PermissionReply::Decided(decision),
            None => PermissionReply::Cancelled,
        }
    }
}

} // verus!
