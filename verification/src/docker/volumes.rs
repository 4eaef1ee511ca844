//! Volumes of the container runtime.

use crate::docker::{
    check_exists_command, After, Command, Guarded, GuardedState, GuardedStateView, GuardedView,
};
use vstd::prelude::*;
use vstd::string::StringExecFns;

verus! {

/// The kind under which the runtime inspects a volume.
pub const VOLUME: &'static str = "volume";

/// Ensures that the volume `name` exists: it is created where it does not,
/// and its name is returned either way.
pub fn create_volume(name: &str) -> (start: (GuardedState, Command))
    ensures
        start.0@ == GuardedStateView::AwaitingCheck(
            GuardedView {
                action: seq!["volume"@, "create"@, name@],
                act_when_exists: false,
                settled: name@,
                after: After::Settled,
            },
        ),
        start.1@ == seq!["inspect"@, "--type"@, VOLUME@, name@],
{
    let mut args: Vec<String> = Vec::new();
    args.push(String::from_str("volume"));
    args.push(String::from_str("create"));
    args.push(String::from_str(name));
    let action = Command { args };
    assert(action@ =~= seq!["volume"@, "create"@, name@]);
    let plan = Guarded {
        action,
        act_when_exists: false,
        settled: String::from_str(name),
        after: After::Settled,
    };
    (GuardedState::AwaitingCheck(plan), check_exists_command(VOLUME, name))
}

/// Ensures that the volume `name` is gone: it is removed where it exists.
pub fn rm_volume(name: &str) -> (start: (GuardedState, Command))
    ensures
        start.0@ == GuardedStateView::AwaitingCheck(
            GuardedView {
                action: seq!["volume"@, "rm"@, name@],
                act_when_exists: true,
                settled: Seq::empty(),
                after: After::Settled,
            },
        ),
        start.1@ == seq!["inspect"@, "--type"@, VOLUME@, name@],
{
    let mut args: Vec<String> = Vec::new();
    args.push(String::from_str("volume"));
    args.push(String::from_str("rm"));
    args.push(String::from_str(name));
    let action = Command { args };
    assert(action@ =~= seq!["volume"@, "rm"@, name@]);
    let plan = Guarded {
        action,
        act_when_exists: true,
        settled: String::new(),
        after: After::Settled,
    };
    (GuardedState::AwaitingCheck(plan), check_exists_command(VOLUME, name))
}

/// The command whose outcome tells whether the volume `name` exists.
pub fn exists_volume(name: &str) -> (command: Command)
    ensures
        command@ == seq!["inspect"@, "--type"@, VOLUME@, name@],
{
    check_exists_command(VOLUME, name)
}

} // verus!
