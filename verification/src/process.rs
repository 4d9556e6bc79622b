//! How the agent's process is started.
use vstd::prelude::*;

use crate::deep::DeepClone;
use crate::protocol::AcpError;
use crate::provider::AcpProviderConfig;

verus! {

/// A change to the environment of a process.
#[derive(Debug, PartialEq, Eq)]
pub enum EnvChange {
    Remove(String),
    Assign(String, String),
}

/// What an [`EnvChange`] stands for.
pub enum EnvChangeView {
    Remove(Seq<char>),
    Assign(Seq<char>, Seq<char>),
}

impl DeepView for EnvChange {
    type V = EnvChangeView;

    open spec fn deep_view(&self) -> Self::V {
        match self {
            EnvChange::Remove(key) => EnvChangeView::Remove(key@),
            EnvChange::Assign(key, value) => EnvChangeView::Assign(key@, value@),
        }
    }
}

/// How a process is started: the program, its arguments, and the changes to the environment
/// that it inherits, to be made in this order.
#[derive(Debug, PartialEq, Eq)]
pub struct ProcessPlan {
    pub command: String,
    pub args: Vec<String>,
    pub env_changes: Vec<EnvChange>,
}

/// The changes that a configuration makes to the environment: first every removal, then every
/// setting.
pub open spec fn env_changes(
    removed: Seq<Seq<char>>,
    set: Seq<(Seq<char>, Seq<char>)>,
) -> Seq<EnvChangeView> {
    removed.map_values(|key: Seq<char>| EnvChangeView::Remove(key)) + set.map_values(
        |pair: (Seq<char>, Seq<char>)| EnvChangeView::Assign(pair.0, pair.1),
    )
}

/// How the agent's process is started.
pub fn spawn_acp_process(config: &AcpProviderConfig) -> (plan: ProcessPlan)
    ensures
        plan.command@ == config.deep_view().command,
        plan.args.deep_view() == config.deep_view().args,
        plan.env_changes.deep_view() == env_changes(
            config.deep_view().env_remove,
            config.deep_view().env,
        ),
{
    let mut changes: Vec<EnvChange> = Vec::new();
    for i in 0..config.env_remove.len()
        invariant
            changes.len() == i,
            forall|j: int|
                0 <= j < i ==> #[trigger] changes[j].deep_view() == EnvChangeView::Remove(
                    config.env_remove[j]@,
                ),
    {
        changes.push(EnvChange::Remove(config.env_remove[i].clone()));
    }
    for i in 0..config.env.len()
        invariant
            changes.len() == config.env_remove.len() + i,
            forall|j: int|
                0 <= j < config.env_remove.len() ==> #[trigger] changes[j].deep_view()
                    == EnvChangeView::Remove(config.env_remove[j]@),
            forall|j: int|
                config.env_remove.len() <= j < changes.len() ==> #[trigger] changes[j].deep_view()
                    == EnvChangeView::Assign(
                    config.env[j - config.env_remove.len()].0@,
                    config.env[j - config.env_remove.len()].1@,
                ),
    {
        changes.push(EnvChange::Assign(config.env[i].0.clone(), config.env[i].1.clone()));
    }
    assert(changes.deep_view() =~= env_changes(
        config.env_remove.deep_view(),
        config.env.deep_view(),
    ));
    ProcessPlan {
        command: config.command.clone(),
        args: config.args.deep_clone(),
        env_changes: changes,
    }
}

/// What the provider is told of the start of the agent's process.
pub fn check_spawn(started: bool) -> (result: Result<(), AcpError>)
    ensures
        match result {
            Ok(()) => started,
            Err(error) => !started && error.says("failed to spawn ACP process"@),
        },
{
    if started {
        Ok(())
    } else {
        Err(AcpError::Message("failed to spawn ACP process".to_owned()))
    }
}

/// Whether the agent's process can be talked to: both its input and its output are needed.
pub fn check_pipes(stdin: bool, stdout: bool) -> (result: Result<(), AcpError>)
    ensures
        match result {
            Ok(()) => stdin && stdout,
            Err(error) => (!stdin && error.says("no stdin"@)) || (stdin && !stdout
                && error.says("no stdout"@)),
        },
{
    if !stdin {
        Err(AcpError::Message("no stdin".to_owned()))
    } else if !stdout {
        Err(AcpError::Message("no stdout".to_owned()))
    } else {
        Ok(())
    }
}

/// The environment after changes made in order.
pub open spec fn environment_after(
    inherited: Map<Seq<char>, Seq<char>>,
    changes: Seq<EnvChangeView>,
) -> Map<Seq<char>, Seq<char>>
    decreases changes.len(),
{
    if changes.len() == 0 {
        inherited
    } else {
        let before = environment_after(inherited, changes.drop_last());
        match changes.last() {
            EnvChangeView::Remove(key) => before.remove(key),
            EnvChangeView::Assign(key, value) => before.insert(key, value),
        }
    }
}

/// A variable that the configuration sets has, in the agent's process, the value that it is
/// set to last, whether or not the configuration also removes it.
pub proof fn set_variables_are_there(
    inherited: Map<Seq<char>, Seq<char>>,
    removed: Seq<Seq<char>>,
    set: Seq<(Seq<char>, Seq<char>)>,
    i: int,
)
    requires
        0 <= i < set.len(),
        forall|j: int| i < j < set.len() ==> (#[trigger] set[j]).0 != set[i].0,
    ensures
        environment_after(inherited, env_changes(removed, set)).contains_key(set[i].0),
        environment_after(inherited, env_changes(removed, set))[set[i].0] == set[i].1,
    decreases set.len(),
{
    let changes = env_changes(removed, set);
    let rest = set.drop_last();
    assert(changes.drop_last() =~= env_changes(removed, rest));
    assert(changes.last() == EnvChangeView::Assign(set.last().0, set.last().1));
    if i < set.len() - 1 {
        assert forall|j: int| i < j < rest.len() implies (#[trigger] rest[j]).0 != rest[i].0 by {
            assert(rest[j] == set[j]);
        }
        set_variables_are_there(inherited, removed, rest, i);
        assert(rest[i] == set[i]);
        assert(set[set.len() - 1].0 != set[i].0);
    }
}

/// A variable that the configuration removes and does not set is not there in the agent's
/// process.
pub proof fn removed_variables_are_gone(
    inherited: Map<Seq<char>, Seq<char>>,
    removed: Seq<Seq<char>>,
    set: Seq<(Seq<char>, Seq<char>)>,
    key: Seq<char>,
)
    requires
        removed.contains(key),
        forall|i: int| 0 <= i < set.len() ==> (#[trigger] set[i]).0 != key,
    ensures
        !environment_after(inherited, env_changes(removed, set)).contains_key(key),
    decreases removed.len() + set.len(),
{
    let changes = env_changes(removed, set);
    if set.len() > 0 {
        let rest = set.drop_last();
        assert(changes.drop_last() =~= env_changes(removed, rest));
        assert(changes.last() == EnvChangeView::Assign(set.last().0, set.last().1));
        assert forall|i: int| 0 <= i < rest.len() implies (#[trigger] rest[i]).0 != key by {
            assert(rest[i] == set[i]);
        }
        removed_variables_are_gone(inherited, removed, rest, key);
        assert(set[set.len() - 1].0 != key);
    } else {
        let rest = removed.drop_last();
        assert(changes.drop_last() =~= env_changes(rest, set));
        assert(changes.last() == EnvChangeView::Remove(removed.last()));
        if removed.last() != key {
            let i = choose|i: int| 0 <= i < removed.len() && removed[i] == key;
            assert(rest[i] == key);
            removed_variables_are_gone(inherited, rest, set, key);
        }
    }
}

/// A variable that the configuration neither removes nor sets is in the agent's process what
/// it is in the environment that the process inherits.
pub proof fn other_variables_are_inherited(
    inherited: Map<Seq<char>, Seq<char>>,
    removed: Seq<Seq<char>>,
    set: Seq<(Seq<char>, Seq<char>)>,
    key: Seq<char>,
)
    requires
        !removed.contains(key),
        forall|i: int| 0 <= i < set.len() ==> (#[trigger] set[i]).0 != key,
    ensures
        environment_after(inherited, env_changes(removed, set)).contains_key(key)
            == inherited.contains_key(key),
        inherited.contains_key(key) ==> environment_after(
            inherited,
            env_changes(removed, set),
        )[key] == inherited[key],
    decreases removed.len() + set.len(),
{
    let changes = env_changes(removed, set);
    if set.len() > 0 {
        let rest = set.drop_last();
        assert(changes.drop_last() =~= env_changes(removed, rest));
        assert(changes.last() == EnvChangeView::Assign(set.last().0, set.last().1));
        assert forall|i: int| 0 <= i < rest.len() implies (#[trigger] rest[i]).0 != key by {
            assert(rest[i] == set[i]);
        }
        other_variables_are_inherited(inherited, removed, rest, key);
        assert(set[set.len() - 1].0 != key);
    } else if removed.len() > 0 {
        let rest = removed.drop_last();
        assert(changes.drop_last() =~= env_changes(rest, set));
        assert(changes.last() == EnvChangeView::Remove(removed.last()));
        assert(removed[removed.len() - 1] != key);
        assert forall|i: int| 0 <= i < rest.len() implies rest[i] != key by {
            assert(removed[i] != key);
        }
        other_variables_are_inherited(inherited, rest, set, key);
    } else {
        assert(changes =~= Seq::empty());
    }
}

} // verus!
