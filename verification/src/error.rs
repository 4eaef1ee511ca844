//! The one error type of the reconciler, after the kinds of failure it
//! tells apart, and the text shown for each.

use crate::text::{
    contains_text, decimal_text, occurs_at, push_decimal, push_signed, signed_text,
};
use vstd::prelude::*;
use vstd::string::StringExecFns;

verus! {

/// Why an operation failed. There is no partial success: an operation
/// returns its outcome or exactly one of these.
#[derive(Clone, Debug, PartialEq, Eq)]
pub enum ActivityError {
    /// The credential is missing; nothing was sent.
    Configuration,
    /// A caller-supplied identifier holds a character outside the allowed
    /// set; nothing was sent.
    Validation,
    /// A reply body did not have the expected shape.
    Decode { body: String },
    /// A conflict was reported and could not be resolved; `status` and
    /// `body` are those of the create that failed, never those of a probe.
    ConflictUnresolvable { status: u16, body: String },
    /// The resource exists under another owner than the one asked for.
    SemanticMismatch { resource: String, actual: String, requested: String },
    /// Any other non-2xx reply.
    Remote { status: u16, body: String },
    /// A non-2xx reply to an operation that names what it was about.
    Refused { what: String, status: u16, body: String },
    /// The provider answered for another resource than the one addressed.
    UnexpectedId { expected: String, got: String },
    /// A command on a machine did not exit with status zero.
    NonZeroExit { exit_code: Option<i32>, stderr: String, stdout: String },
    /// A command of the container runtime did not exit with status zero.
    CommandFailed { exit_code: Option<i32>, stderr: String, stdout: String },
    /// The container does not exist.
    ContainerNotFound { name: String },
    /// The container exists and is not running.
    ContainerNotRunning { name: String, state: String },
    /// The transport could not complete the call; its own words.
    Transport { message: String },
}

/// The mathematical counterpart of [`ActivityError`].
pub enum ErrorView {
    Configuration,
    Validation,
    Decode { body: Seq<char> },
    ConflictUnresolvable { status: u16, body: Seq<char> },
    SemanticMismatch { resource: Seq<char>, actual: Seq<char>, requested: Seq<char> },
    Remote { status: u16, body: Seq<char> },
    Refused { what: Seq<char>, status: u16, body: Seq<char> },
    UnexpectedId { expected: Seq<char>, got: Seq<char> },
    NonZeroExit { exit_code: Option<i32>, stderr: Seq<char>, stdout: Seq<char> },
    CommandFailed { exit_code: Option<i32>, stderr: Seq<char>, stdout: Seq<char> },
    ContainerNotFound { name: Seq<char> },
    ContainerNotRunning { name: Seq<char>, state: Seq<char> },
    Transport { message: Seq<char> },
}

impl View for ActivityError {
    type V = ErrorView;

    open spec fn view(&self) -> ErrorView {
        match self {
            ActivityError::Configuration => ErrorView::Configuration,
            ActivityError::Validation => ErrorView::Validation,
            ActivityError::Decode { body } => ErrorView::Decode { body: body@ },
            ActivityError::ConflictUnresolvable { status, body } => {
                ErrorView::ConflictUnresolvable { status: *status, body: body@ }
            },
            ActivityError::SemanticMismatch { resource, actual, requested } => {
                ErrorView::SemanticMismatch {
                    resource: resource@,
                    actual: actual@,
                    requested: requested@,
                }
            },
            ActivityError::Remote { status, body } => ErrorView::Remote {
                status: *status,
                body: body@,
            },
            ActivityError::Refused { what, status, body } => ErrorView::Refused {
                what: what@,
                status: *status,
                body: body@,
            },
            ActivityError::UnexpectedId { expected, got } => ErrorView::UnexpectedId {
                expected: expected@,
                got: got@,
            },
            ActivityError::NonZeroExit { exit_code, stderr, stdout } => ErrorView::NonZeroExit {
                exit_code: *exit_code,
                stderr: stderr@,
                stdout: stdout@,
            },
            ActivityError::CommandFailed { exit_code, stderr, stdout } => ErrorView::CommandFailed {
                exit_code: *exit_code,
                stderr: stderr@,
                stdout: stdout@,
            },
            ActivityError::ContainerNotFound { name } => ErrorView::ContainerNotFound {
                name: name@,
            },
            ActivityError::ContainerNotRunning { name, state } => ErrorView::ContainerNotRunning {
                name: name@,
                state: state@,
            },
            ActivityError::Transport { message } => ErrorView::Transport { message: message@ },
        }
    }
}

/// The view of an operation that yields a text or fails.
pub open spec fn text_outcome(r: Result<String, ActivityError>) -> Result<Seq<char>, ErrorView> {
    match r {
        Ok(s) => Ok(s@),
        Err(e) => Err(e@),
    }
}

/// The view of an operation that yields nothing or fails.
pub open spec fn unit_outcome(r: Result<(), ActivityError>) -> Result<(), ErrorView> {
    match r {
        Ok(()) => Ok(()),
        Err(e) => Err(e@),
    }
}

/// The error for a non-2xx reply with no further meaning.
pub open spec fn remote(status: u16, body: Seq<char>) -> ErrorView {
    ErrorView::Remote { status, body }
}

/// The error for a reply body of the wrong shape.
pub open spec fn decode(body: Seq<char>) -> ErrorView {
    ErrorView::Decode { body }
}

/// `"failed with status <status>: <body>"`.
pub open spec fn status_line(status: u16, body: Seq<char>) -> Seq<char> {
    "failed with status "@ + decimal_text(status as nat) + ": "@ + body
}

/// The text shown to an operator for each error. Status and raw body are
/// embedded verbatim; a mismatch names the resource and both owners.
pub open spec fn message_text(e: ErrorView) -> Seq<char> {
    match e {
        ErrorView::Configuration => "cannot obtain `FLY_API_TOKEN`"@,
        ErrorView::Validation => "illegal slug"@,
        ErrorView::Decode { body } => "cannot deserialize: "@ + body,
        ErrorView::ConflictUnresolvable { status, body } => status_line(status, body),
        ErrorView::SemanticMismatch { resource, actual, requested } => "app '"@ + resource
            + "' already exists but belongs to organization '"@ + actual
            + "', not the requested '"@ + requested + "'."@,
        ErrorView::Remote { status, body } => status_line(status, body),
        ErrorView::Refused { what, status, body } => "failed to "@ + what + " with status "@
            + decimal_text(status as nat) + ": "@ + body,
        ErrorView::UnexpectedId { expected, got } => "unexpected id returned, expected "@
            + expected + " got "@ + got,
        ErrorView::NonZeroExit { exit_code, .. } => "non-successful exit status - "@ + exit_text(
            exit_code,
        ),
        ErrorView::CommandFailed { exit_code, stderr, stdout } => "Docker command failed (Exit "@
            + exit_text(exit_code) + ").\nStderr: "@ + stderr + "\nStdout: "@ + stdout,
        ErrorView::ContainerNotFound { name } => "Container '"@ + name + "' not found"@,
        ErrorView::ContainerNotRunning { name, state } => "Container '"@ + name
            + "' exists but is in state '"@ + state
            + "'. Use 'start' to resume or 'rm' to replace."@,
        ErrorView::Transport { message } => message,
    }
}

/// The text of a mismatch names the organization that holds the resource
/// and the one that was asked for.
pub proof fn lemma_mismatch_names_both(resource: Seq<char>, actual: Seq<char>, requested: Seq<char>)
    ensures
        contains_text(
            message_text(ErrorView::SemanticMismatch { resource, actual, requested }),
            actual,
        ),
        contains_text(
            message_text(ErrorView::SemanticMismatch { resource, actual, requested }),
            requested,
        ),
{
    let text = message_text(ErrorView::SemanticMismatch { resource, actual, requested });
    let head = "app '"@ + resource + "' already exists but belongs to organization '"@;
    let middle = head + actual + "', not the requested '"@;
    assert(text =~= middle + requested + "'."@);
    assert(text.subrange(head.len() as int, (head.len() + actual.len()) as int) =~= actual);
    assert(occurs_at(text, actual, head.len() as int));
    let end = middle.len() + requested.len();
    assert(text.subrange(middle.len() as int, end as int) =~= requested);
    assert(occurs_at(text, requested, middle.len() as int));
}

/// An exit status as `Some(<decimal>)`, or `None` where the command ended
/// without one.
pub open spec fn exit_text(exit_code: Option<i32>) -> Seq<char> {
    match exit_code {
        Some(code) => "Some("@ + signed_text(code as int) + ")"@,
        None => "None"@,
    }
}

impl ActivityError {
    /// The error for a non-2xx reply with no further meaning.
    pub fn remote(status: u16, body: &str) -> (e: ActivityError)
        ensures
            e@ == remote(status, body@),
    {
        ActivityError::Remote { status, body: String::from_str(body) }
    }

    /// The error for a reply body of the wrong shape.
    pub fn decode(body: &str) -> (e: ActivityError)
        ensures
            e@ == decode(body@),
    {
        ActivityError::Decode { body: String::from_str(body) }
    }

    /// The text shown to an operator.
    pub fn message(&self) -> (text: String)
        ensures
            text@ == message_text(self@),
    {
        match self {
            ActivityError::Configuration => String::from_str("cannot obtain `FLY_API_TOKEN`"),
            ActivityError::Validation => String::from_str("illegal slug"),
            ActivityError::Decode { body } => {
                let mut text = String::from_str("cannot deserialize: ");
                text.append(body.as_str());
                text
            },
            ActivityError::ConflictUnresolvable { status, body } => render_status_line(
                *status,
                body.as_str(),
            ),
            ActivityError::SemanticMismatch { resource, actual, requested } => {
                let mut text = String::from_str("app '");
                text.append(resource.as_str());
                text.append("' already exists but belongs to organization '");
                text.append(actual.as_str());
                text.append("', not the requested '");
                text.append(requested.as_str());
                text.append("'.");
                text
            },
            ActivityError::Remote { status, body } => render_status_line(*status, body.as_str()),
            ActivityError::Refused { what, status, body } => {
                let mut text = String::from_str("failed to ");
                text.append(what.as_str());
                text.append(" with status ");
                push_decimal(&mut text, *status as u64);
                text.append(": ");
                text.append(body.as_str());
                text
            },
            ActivityError::UnexpectedId { expected, got } => {
                let mut text = String::from_str("unexpected id returned, expected ");
                text.append(expected.as_str());
                text.append(" got ");
                text.append(got.as_str());
                text
            },
            ActivityError::NonZeroExit { exit_code, .. } => {
                let mut text = String::from_str("non-successful exit status - ");
                push_exit(&mut text, *exit_code);
                text
            },
            ActivityError::CommandFailed { exit_code, stderr, stdout } => {
                let mut text = String::from_str("Docker command failed (Exit ");
                push_exit(&mut text, *exit_code);
                text.append(").\nStderr: ");
                text.append(stderr.as_str());
                text.append("\nStdout: ");
                text.append(stdout.as_str());
                text
            },
            ActivityError::ContainerNotFound { name } => {
                let mut text = String::from_str("Container '");
                text.append(name.as_str());
                text.append("' not found");
                text
            },
            ActivityError::ContainerNotRunning { name, state } => {
                let mut text = String::from_str("Container '");
                text.append(name.as_str());
                text.append("' exists but is in state '");
                text.append(state.as_str());
                text.append("'. Use 'start' to resume or 'rm' to replace.");
                text
            },
            ActivityError::Transport { message } => message.clone(),
        }
    }
}

/// Appends an exit status as [`exit_text`] writes it.
pub fn push_exit(text: &mut String, exit_code: Option<i32>)
    ensures
        final(text)@ == old(text)@ + exit_text(exit_code),
{
    match exit_code {
        Some(code) => {
            text.append("Some(");
            push_signed(text, code);
            text.append(")");
        },
        None => text.append("None"),
    }
}

/// Renders `"failed with status <status>: <body>"`.
pub fn render_status_line(status: u16, body: &str) -> (text: String)
    ensures
        text@ == status_line(status, body@),
{
    let mut text = String::from_str("failed with status ");
    push_decimal(&mut text, status as u64);
    text.append(": ");
    text.append(body);
    text
}

} // verus!
