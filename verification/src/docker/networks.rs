//! Networks of the container runtime.

use crate::docker::{
    check_exists_command, After, Command, Guarded, GuardedState, GuardedStateView, GuardedView,
};
use vstd::prelude::*;
use vstd::string::StringExecFns;

verus! {

/// The kind under which the runtime inspects a network.
pub const NETWORK: &'static str = "network";

/// The arguments that create the network `name`, with the driver `driver`
/// where one is given.
pub open spec fn create_args(name: Seq<char>, driver: Option<Seq<char>>) -> Seq<Seq<char>> {
    match driver {
        Some(d) => seq!["network"@, "create"@, "--driver"@, d, name],
        None => seq!["network"@, "create"@, name],
    }
}

/// Ensures that the network `name` exists: a network of that name is
/// accepted as it is and its name returned; otherwise it is created and
/// what the runtime prints is returned.
pub fn create_network(name: &str, driver: Option<&str>) -> (start: (GuardedState, Command))
    ensures
        start.0@ == GuardedStateView::AwaitingCheck(
            GuardedView {
                action: create_args(
                    name@,
                    match driver {
                        Some(d) => Some(d@),
                        None => None,
                    },
                ),
                act_when_exists: false,
                settled: name@,
                after: After::Output,
            },
        ),
        start.1@ == seq!["inspect"@, "--type"@, NETWORK@, name@],
{
    let mut args: Vec<String> = Vec::new();
    args.push(String::from_str("network"));
    args.push(String::from_str("create"));
    match driver {
        Some(d) => {
            args.push(String::from_str("--driver"));
            args.push(String::from_str(d));
        },
        None => {},
    }
    args.push(String::from_str(name));
    let action = Command { args };
    assert(action@ =~= create_args(
        name@,
        match driver {
            Some(d) => Some(d@),
            None => None,
        },
    ));
    let plan = Guarded {
        action,
        act_when_exists: false,
        settled: String::from_str(name),
        after: After::Output,
    };
    (GuardedState::AwaitingCheck(plan), check_exists_command(NETWORK, name))
}

/// Ensures that the network `name` is gone: it is removed where it exists.
pub fn rm_network(name: &str) -> (start: (GuardedState, Command))
    ensures
        start.0@ == GuardedStateView::AwaitingCheck(
            GuardedView {
                action: seq!["network"@, "rm"@, name@],
                act_when_exists: true,
                settled: Seq::empty(),
                after: After::Settled,
            },
        ),
        start.1@ == seq!["inspect"@, "--type"@, NETWORK@, name@],
{
    let mut args: Vec<String> = Vec::new();
    args.push(String::from_str("network"));
    args.push(String::from_str("rm"));
    args.push(String::from_str(name));
    let action = Command { args };
    assert(action@ =~= seq!["network"@, "rm"@, name@]);
    let plan = Guarded {
        action,
        act_when_exists: true,
        settled: String::new(),
        after: After::Settled,
    };
    (GuardedState::AwaitingCheck(plan), check_exists_command(NETWORK, name))
}

/// The command that removes every unused network.
pub fn prune_networks() -> (command: Command)
    ensures
        command@ == seq!["network"@, "prune"@, "-f"@],
{
    let mut args: Vec<String> = Vec::new();
    args.push(String::from_str("network"));
    args.push(String::from_str("prune"));
    args.push(String::from_str("-f"));
    let command = Command { args };
    assert(command@ =~= seq!["network"@, "prune"@, "-f"@]);
    command
}

} // verus!
