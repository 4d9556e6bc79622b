//! The modes in which a session runs, and what each decides about permissions.
use vstd::prelude::*;

use crate::deep::DeepClone;
use crate::text::same_text;

verus! {

/// How much the agent may do without asking.
#[derive(Debug, Clone, Copy, PartialEq, Eq, Structural)]
pub enum GooseMode {
    /// Tools run without asking.
    Auto,
    /// Every tool call is put to the user.
    Approve,
    /// The agent chooses which tool calls to put to the user.
    SmartApprove,
    /// No tool runs.
    Chat,
}

/// The mode with this name, if there is one.
pub open spec fn mode_named(name: Seq<char>) -> Option<GooseMode> {
    if name == "auto"@ {
        Some(GooseMode::Auto)
    } else if name == "approve"@ {
        Some(GooseMode::Approve)
    } else if name == "smart_approve"@ {
        Some(GooseMode::SmartApprove)
    } else if name == "chat"@ {
        Some(GooseMode::Chat)
    } else {
        None
    }
}

impl GooseMode {
    /// The name by which a mode is known on the wire.
    pub open spec fn name(self) -> Seq<char> {
        match self {
            GooseMode::Auto => "auto"@,
            GooseMode::Approve => "approve"@,
            GooseMode::SmartApprove => "smart_approve"@,
            GooseMode::Chat => "chat"@,
        }
    }

    /// The name by which this mode is known on the wire.
    pub fn as_str(self) -> (name: &'static str)
        ensures
            name@ == self.name(),
    {
        match self {
            GooseMode::Auto => "auto",
            GooseMode::Approve => "approve",
            GooseMode::SmartApprove => "smart_approve",
            GooseMode::Chat => "chat",
        }
    }

    /// The mode with this name; `None` for a text that names no mode.
    pub fn from_str(name: &str) -> (mode: Option<GooseMode>)
        ensures
            mode == mode_named(name@),
    {
        if same_text(name, "auto") {
            Some(GooseMode::Auto)
        } else if same_text(name, "approve") {
            Some(GooseMode::Approve)
        } else if same_text(name, "smart_approve") {
            Some(GooseMode::SmartApprove)
        } else if same_text(name, "chat") {
            Some(GooseMode::Chat)
        } else {
            None
        }
    }
}

/// The name that the agent gives to each mode. An agent need not know them all.
#[derive(Debug, PartialEq, Eq)]
pub struct ModeMapping {
    pub auto: Option<String>,
    pub approve: Option<String>,
    pub smart_approve: Option<String>,
    pub chat: Option<String>,
}

impl DeepView for ModeMapping {
    type V = Map<GooseMode, Seq<char>>;

    open spec fn deep_view(&self) -> Self::V {
        Map::new(|mode: GooseMode| self.entry(mode) is Some, |mode: GooseMode| self.entry(mode)->0@)
    }
}

impl ModeMapping {
    /// What stands for a mode.
    pub open spec fn entry(&self, mode: GooseMode) -> Option<String> {
        match mode {
            GooseMode::Auto => self.auto,
            GooseMode::Approve => self.approve,
            GooseMode::SmartApprove => self.smart_approve,
            GooseMode::Chat => self.chat,
        }
    }

    /// The agent's name for a mode, if it has one.
    pub fn get(&self, mode: GooseMode) -> (id: Option<&String>)
        ensures
            match id {
                Some(id) => self.deep_view().contains_key(mode) && id@ == self.deep_view()[mode],
                None => !self.deep_view().contains_key(mode),
            },
    {
        match mode {
            GooseMode::Auto => self.auto.as_ref(),
            GooseMode::Approve => self.approve.as_ref(),
            GooseMode::SmartApprove => self.smart_approve.as_ref(),
            GooseMode::Chat => self.chat.as_ref(),
        }
    }
}

impl DeepClone for ModeMapping {
    fn deep_clone(&self) -> (copy: Self) {
        let copy = ModeMapping {
            auto: self.auto.deep_clone(),
            approve: self.approve.deep_clone(),
            smart_approve: self.smart_approve.deep_clone(),
            chat: self.chat.deep_clone(),
        };
        assert forall|mode: GooseMode| copy.entry(mode).deep_view() == self.entry(
            mode,
        ).deep_view() by {}
        assert(copy.deep_view() =~= self.deep_view());
        copy
    }
}

/// What becomes of a tool call that the agent asked permission for.
#[derive(Debug, Clone, Copy, PartialEq, Eq, Structural)]
pub enum PermissionDecision {
    AllowAlways,
    AllowOnce,
    RejectAlways,
    RejectOnce,
    Cancel,
}

impl PermissionDecision {
    /// Whether the tool call is kept from running.
    pub open spec fn rejects(self) -> bool {
        self == PermissionDecision::RejectAlways || self == PermissionDecision::RejectOnce || self
            == PermissionDecision::Cancel
    }

    /// Whether the tool call is to be remembered as one that was denied.
    pub fn should_record_rejection(self) -> (record: bool)
        ensures
            record == self.rejects(),
    {
        match self {
            PermissionDecision::AllowAlways | PermissionDecision::AllowOnce => false,
            PermissionDecision::RejectAlways
            | PermissionDecision::RejectOnce
            | PermissionDecision::Cancel => true,
        }
    }

    /// The decision that carries out what the user chose.
    pub open spec fn of(permission: Permission) -> PermissionDecision {
        match permission {
            Permission::AlwaysAllow => PermissionDecision::AllowAlways,
            Permission::AllowOnce => PermissionDecision::AllowOnce,
            Permission::AlwaysDeny => PermissionDecision::RejectAlways,
            Permission::DenyOnce => PermissionDecision::RejectOnce,
            Permission::Cancel => PermissionDecision::Cancel,
        }
    }

    /// The decision that carries out what the user chose.
    pub fn from_permission(permission: Permission) -> (decision: PermissionDecision)
        ensures
            decision == PermissionDecision::of(permission),
    {
        match permission {
            Permission::AlwaysAllow => PermissionDecision::AllowAlways,
            Permission::AllowOnce => PermissionDecision::AllowOnce,
            Permission::AlwaysDeny => PermissionDecision::RejectAlways,
            Permission::DenyOnce => PermissionDecision::RejectOnce,
            Permission::Cancel => PermissionDecision::Cancel,
        }
    }
}

/// What the user chose when asked about a tool call.
#[derive(Debug, Clone, Copy, PartialEq, Eq, Structural)]
pub enum Permission {
    AlwaysAllow,
    AllowOnce,
    Cancel,
    DenyOnce,
    AlwaysDeny,
}

/// What a confirmation is about.
#[derive(Debug, Clone, Copy, PartialEq, Eq, Structural)]
pub enum PrincipalType {
    Extension,
    Tool,
}

/// The user's answer to a request for permission.
#[derive(Debug, Clone, Copy, PartialEq, Eq, Structural)]
pub struct PermissionConfirmation {
    pub principal_type: PrincipalType,
    pub permission: Permission,
}

/// Where the permission requests of a provider are answered.
#[derive(Debug, Clone, Copy, PartialEq, Eq, Structural)]
pub enum PermissionRouting {
    /// The user is asked through a message that requires an action.
    ActionRequired,
    /// The provider asks nothing.
    Noop,
}

/// What a mode decides by itself about every permission request; `None` where it is left to
/// the user.
pub open spec fn mode_decision(goose_mode: GooseMode) -> Option<PermissionDecision> {
    match goose_mode {
        GooseMode::Auto => Some(PermissionDecision::AllowOnce),
        GooseMode::Chat => Some(PermissionDecision::RejectOnce),
        GooseMode::Approve | GooseMode::SmartApprove => None,
    }
}

/// What the mode decides by itself about a permission request; `None` where it is left to the
/// user.
pub fn permission_decision_from_mode(goose_mode: GooseMode) -> (decision: Option<
    PermissionDecision,
>)
    ensures
        decision == mode_decision(goose_mode),
{
    match goose_mode {
        GooseMode::Auto => Some(PermissionDecision::AllowOnce),
        GooseMode::Chat => Some(PermissionDecision::RejectOnce),
        GooseMode::Approve | GooseMode::SmartApprove => None,
    }
}

/// A mode's name leads back to the mode, and to no other.
pub proof fn mode_names_round_trip(mode: GooseMode, name: Seq<char>)
    ensures
        mode_named(mode.name()) == Some(mode),
        mode_named(name) == Some(mode) <==> name == mode.name(),
{
    reveal_strlit("auto");
    reveal_strlit("approve");
    reveal_strlit("smart_approve");
    reveal_strlit("chat");
    assert("auto"@[0] != "chat"@[0]);
    assert("auto"@.len() != "approve"@.len());
    assert("chat"@.len() != "approve"@.len());
    assert("smart_approve"@.len() != "approve"@.len());
    assert("smart_approve"@.len() != "auto"@.len());
    assert("smart_approve"@.len() != "chat"@.len());
}

} // verus!
