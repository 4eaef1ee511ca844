//! The container runtime's command line: what a finished command yields,
//! how the existence of a resource is read from an inspection, and one
//! module for each kind of resource.

pub mod containers;
pub mod networks;
pub mod volumes;

use crate::error::{message_text, ActivityError, ErrorView};
use crate::protocol::{Progress, ProgressView};
use crate::text::{contains, contains_text, trim, trimmed};
use vstd::prelude::*;
use vstd::string::StringExecFns;

verus! {

/// A command for the runtime's binary: its arguments, in order.
#[derive(Clone, Debug, PartialEq, Eq)]
pub struct Command {
    pub args: Vec<String>,
}

impl View for Command {
    type V = Seq<Seq<char>>;

    open spec fn view(&self) -> Seq<Seq<char>> {
        self.args.deep_view()
    }
}

/// The view of what a command yields.
pub open spec fn output_view(outcome: Result<String, ActivityError>) -> Result<
    Seq<char>,
    ErrorView,
> {
    match outcome {
        Ok(output) => Ok(output@),
        Err(e) => Err(e@),
    }
}

/// What a finished command yields: its trimmed output where it exited with
/// status zero; otherwise the failure, with the exit status and both
/// streams, trimmed.
pub open spec fn exec_outcome(
    exit_status: Option<i32>,
    stdout: Seq<char>,
    stderr: Seq<char>,
) -> Result<Seq<char>, ErrorView> {
    if exit_status == Some(0i32) {
        Ok(trimmed(stdout))
    } else {
        Err(
            ErrorView::CommandFailed {
                exit_code: exit_status,
                stderr: trimmed(stderr),
                stdout: trimmed(stdout),
            },
        )
    }
}

/// Decides what a finished command yields from its exit status and its two
/// streams.
pub fn exec(exit_status: Option<i32>, stdout: &str, stderr: &str) -> (outcome: Result<
    String,
    ActivityError,
>)
    ensures
        output_view(outcome) == exec_outcome(exit_status, stdout@, stderr@),
{
    match exit_status {
        Some(0) => Ok(String::from_str(trim(stdout))),
        _ => Err(
            ActivityError::CommandFailed {
                exit_code: exit_status,
                stderr: String::from_str(trim(stderr)),
                stdout: String::from_str(trim(stdout)),
            },
        ),
    }
}

/// The text of the error `e` holds `needle`.
pub open spec fn mentions(e: ErrorView, needle: Seq<char>) -> bool {
    contains_text(message_text(e), needle)
}

/// Whether the text of `e` holds `needle`.
pub fn error_mentions(e: &ActivityError, needle: &str) -> (r: bool)
    ensures
        r == mentions(e@, needle@),
{
    let text = e.message();
    contains(text.as_str(), needle)
}

/// What the runtime says of a resource it does not have.
pub const NO_SUCH: &'static str = "No such";

/// The command that inspects the resource `name` of the kind
/// `resource_type`.
pub fn check_exists_command(resource_type: &str, name: &str) -> (command: Command)
    ensures
        command@ == seq!["inspect"@, "--type"@, resource_type@, name@],
{
    let mut args: Vec<String> = Vec::new();
    args.push(String::from_str("inspect"));
    args.push(String::from_str("--type"));
    args.push(String::from_str(resource_type));
    args.push(String::from_str(name));
    let command = Command { args };
    assert(command@ =~= seq!["inspect"@, "--type"@, resource_type@, name@]);
    command
}

/// Whether the inspected resource exists: it does where the inspection
/// succeeded, it does not where the failure speaks of no such object, and
/// any other failure stands as it is.
pub open spec fn exists_outcome(inspection: Result<Seq<char>, ErrorView>) -> Result<
    bool,
    ErrorView,
> {
    match inspection {
        Ok(_) => Ok(true),
        Err(e) => if mentions(e, NO_SUCH@) {
            Ok(false)
        } else {
            Err(e)
        },
    }
}

/// The view of an existence check.
pub open spec fn exists_view(r: Result<bool, ActivityError>) -> Result<bool, ErrorView> {
    match r {
        Ok(b) => Ok(b),
        Err(e) => Err(e@),
    }
}

/// Decides from the outcome of an inspection whether the resource exists.
pub fn check_exists(inspection: Result<String, ActivityError>) -> (r: Result<bool, ActivityError>)
    ensures
        exists_view(r) == exists_outcome(output_view(inspection)),
{
    match inspection {
        Ok(_) => Ok(true),
        Err(e) => if error_mentions(&e, NO_SUCH) {
            Ok(false)
        } else {
            Err(e)
        },
    }
}

/// What a guarded operation returns once its action has run.
#[derive(Clone, Copy, Debug, PartialEq, Eq, Structural)]
pub enum After {
    /// The action's output, or its failure.
    Output,
    /// The settled value where the action succeeded, else its failure.
    Settled,
    /// The settled value, whatever became of the action.
    Forgiven,
}

/// An operation that first inspects a resource and acts only where the
/// inspection calls for it, so that repeating it changes nothing.
#[derive(Clone, Debug, PartialEq, Eq)]
pub struct Guarded {
    /// The command that acts.
    pub action: Command,
    /// Whether the action is for a resource that exists, or for one that
    /// does not.
    pub act_when_exists: bool,
    /// What the operation returns where nothing is left to do.
    pub settled: String,
    /// What the operation returns once the action has run.
    pub after: After,
}

/// The mathematical counterpart of [`Guarded`].
pub struct GuardedView {
    pub action: Seq<Seq<char>>,
    pub act_when_exists: bool,
    pub settled: Seq<char>,
    pub after: After,
}

impl View for Guarded {
    type V = GuardedView;

    open spec fn view(&self) -> GuardedView {
        GuardedView {
            action: self.action@,
            act_when_exists: self.act_when_exists,
            settled: self.settled@,
            after: self.after,
        }
    }
}

/// Where a guarded operation stands between two commands.
#[derive(Clone, Debug, PartialEq, Eq)]
pub enum GuardedState {
    /// The inspection was requested.
    AwaitingCheck(Guarded),
    /// The action was requested.
    AwaitingAction { settled: String, after: After },
}

/// The mathematical counterpart of [`GuardedState`].
pub enum GuardedStateView {
    AwaitingCheck(GuardedView),
    AwaitingAction { settled: Seq<char>, after: After },
}

impl View for GuardedState {
    type V = GuardedStateView;

    open spec fn view(&self) -> GuardedStateView {
        match self {
            GuardedState::AwaitingCheck(plan) => GuardedStateView::AwaitingCheck(plan@),
            GuardedState::AwaitingAction { settled, after } => GuardedStateView::AwaitingAction {
                settled: settled@,
                after: *after,
            },
        }
    }
}

/// Where a guarded operation goes after a command.
pub type GuardedProgress = ProgressView<GuardedStateView, Seq<Seq<char>>, Seq<char>>;

/// The rule of a guarded operation: what follows the outcome `outcome` of
/// the last command in `state`.
///
/// After the inspection, a failure that does not speak of a missing object
/// ends the operation; where the resource is already as wanted the
/// operation ends with the settled value and nothing is run; otherwise the
/// action follows. After the action, the operation ends as `after` says.
pub open spec fn guarded_follows(
    state: GuardedStateView,
    outcome: Result<Seq<char>, ErrorView>,
) -> GuardedProgress {
    match state {
        GuardedStateView::AwaitingCheck(plan) => match exists_outcome(outcome) {
            Err(e) => GuardedProgress::Done(Err(e)),
            Ok(exists) => if exists == plan.act_when_exists {
                GuardedProgress::Continue {
                    state: GuardedStateView::AwaitingAction {
                        settled: plan.settled,
                        after: plan.after,
                    },
                    call: plan.action,
                }
            } else {
                GuardedProgress::Done(Ok(plan.settled))
            },
        },
        GuardedStateView::AwaitingAction { settled, after } => match after {
            After::Output => GuardedProgress::Done(outcome),
            After::Settled => match outcome {
                Ok(_) => GuardedProgress::Done(Ok(settled)),
                Err(e) => GuardedProgress::Done(Err(e)),
            },
            After::Forgiven => GuardedProgress::Done(Ok(settled)),
        },
    }
}

/// Advances a guarded operation by the outcome of its last command.
pub fn advance_guarded(state: GuardedState, outcome: Result<String, ActivityError>) -> (next:
    Progress<GuardedState, Command, String>)
    ensures
        next@ == guarded_follows(state@, output_view(outcome)),
{
    match state {
        GuardedState::AwaitingCheck(plan) => match check_exists(outcome) {
            Err(e) => Progress::Done(Err(e)),
            Ok(exists) => if exists == plan.act_when_exists {
                Progress::Continue {
                    state: GuardedState::AwaitingAction {
                        settled: plan.settled,
                        after: plan.after,
                    },
                    call: plan.action,
                }
            } else {
                Progress::Done(Ok(plan.settled))
            },
        },
        GuardedState::AwaitingAction { settled, after } => match after {
            After::Output => Progress::Done(outcome),
            After::Settled => match outcome {
                Ok(_) => Progress::Done(Ok(settled)),
                Err(e) => Progress::Done(Err(e)),
            },
            After::Forgiven => Progress::Done(Ok(settled)),
        },
    }
}

/// A resource that is already as wanted is left alone: the operation ends
/// at the inspection, whatever the action would have been.
pub proof fn lemma_guarded_is_idempotent(plan: GuardedView, outcome: Result<Seq<char>, ErrorView>)
    requires
        exists_outcome(outcome) == Ok::<bool, ErrorView>(!plan.act_when_exists),
    ensures
        guarded_follows(GuardedStateView::AwaitingCheck(plan), outcome) == GuardedProgress::Done(
            Ok(plan.settled),
        ),
{
}

} // verus!
