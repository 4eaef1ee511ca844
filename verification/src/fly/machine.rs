//! Machines: the requests of the machine endpoints, and what the replies
//! to a create, an update and a command yield. A create whose name is taken
//! is not an error: the id of the machine that holds the name is recovered
//! from the provider's conflict message.

use crate::error::{decode, remote, text_outcome, unit_outcome, ActivityError, ErrorView};
use crate::fly::{app_url, build_app_url};
use crate::http::{is_success, status_is_success, Method, Request, RequestView, CONFLICT};
use crate::json::{read_text, text_member};
use crate::slug::{AppName, MachineId};
use crate::text::{
    chars_of, contains_text, find_first, first_index, lemma_first_index_is, matches_at, occurs_at,
    opt_text, same_text,
};
use vstd::prelude::*;
use vstd::slice::slice_subrange;
use vstd::string::{StrSliceExecFns, StringExecFns};

verus! {

/// What a conflict message starts with, up to the machine id.
pub const CONFLICT_PREFIX: &'static str =
    "already_exists: unique machine name violation, machine ID ";

/// What follows the machine id in a conflict message.
pub const CONFLICT_SUFFIX: &'static str = " already exists with name ";

/// The machine id that a conflict message carries: the text between the
/// prefix, which must open the message, and the leftmost suffix after it.
pub open spec fn conflict_machine_id(message: Seq<char>) -> Option<Seq<char>> {
    let rest = message.skip(CONFLICT_PREFIX@.len() as int);
    if occurs_at(message, CONFLICT_PREFIX@, 0) && contains_text(rest, CONFLICT_SUFFIX@) {
        Some(rest.take(first_index(rest, CONFLICT_SUFFIX@)))
    } else {
        None
    }
}

/// The error body of a provider response.
#[derive(Clone, Debug, PartialEq, Eq)]
pub struct ResponseErrorSer {
    pub error: String,
}

impl ResponseErrorSer {
    /// The id of the machine that already holds the name, where the message
    /// is a name conflict in the provider's exact wording.
    pub fn get_machine_id_on_creation_conflict(&self) -> (id: Option<&str>)
        ensures
            id is Some <==> conflict_machine_id(self.error@) is Some,
            id matches Some(text) ==> conflict_machine_id(self.error@) == Some(text@),
    {
        let message = chars_of(self.error.as_str());
        let prefix = chars_of(CONFLICT_PREFIX);
        let suffix = chars_of(CONFLICT_SUFFIX);
        if !matches_at(message.as_slice(), prefix.as_slice(), 0) {
            return None;
        }
        let start = prefix.len();
        let rest = slice_subrange(message.as_slice(), start, message.len());
        assert(rest@ == self.error@.skip(start as int));
        match find_first(rest, suffix.as_slice()) {
            Some(end) => {
                let text = self.error.as_str().substring_char(start, start + end);
                assert(text@ == rest@.take(end as int));
                Some(text)
            },
            None => None,
        }
    }
}

/// What a create returns for a reply with `status` and `body`, given the
/// string member `id` of a success body and the string member `error` of a
/// conflict body, each `None` where the body has no such member.
///
/// A 2xx reply yields the new machine's id. A conflict yields the id of the
/// machine that already holds the name, taken from the message as it
/// stands: its configuration is not compared with the one asked for. Every
/// other reply is an error that carries status and body.
pub open spec fn create_outcome(
    status: u16,
    body: Seq<char>,
    id: Option<Seq<char>>,
    error: Option<Seq<char>>,
) -> Result<Seq<char>, ErrorView> {
    if is_success(status) {
        match id {
            Some(created) => Ok(created),
            None => Err(decode(body)),
        }
    } else if status == CONFLICT {
        match error {
            None => Err(decode(body)),
            Some(message) => match conflict_machine_id(message) {
                Some(existing) => Ok(existing),
                None => Err(ErrorView::ConflictUnresolvable { status, body }),
            },
        }
    } else {
        Err(remote(status, body))
    }
}

/// Decides the outcome of a create from its reply and the members already
/// read from the body.
pub fn decide_create(status: u16, body: &str, id: Option<String>, error: Option<String>) -> (r:
    Result<String, ActivityError>)
    ensures
        text_outcome(r) == create_outcome(status, body@, opt_text(id), opt_text(error)),
{
    if status_is_success(status) {
        match id {
            Some(created) => Ok(created),
            None => Err(ActivityError::decode(body)),
        }
    } else if status == CONFLICT {
        match error {
            None => Err(ActivityError::decode(body)),
            Some(message) => {
                let response = ResponseErrorSer { error: message };
                match response.get_machine_id_on_creation_conflict() {
                    Some(existing) => Ok(String::from_str(existing)),
                    None => Err(
                        ActivityError::ConflictUnresolvable {
                            status,
                            body: String::from_str(body),
                        },
                    ),
                }
            },
        }
    } else {
        Err(ActivityError::remote(status, body))
    }
}

/// Decides the outcome of a create from its reply: reads `id` from a 2xx
/// body, `error` from a conflict body, and nothing otherwise.
pub fn resolve_create(status: u16, body: &str) -> (r: Result<String, ActivityError>)
    ensures
        text_outcome(r) == create_outcome(
            status,
            body@,
            text_member(body@, "/id"@),
            text_member(body@, "/error"@),
        ),
{
    if status_is_success(status) {
        decide_create(status, body, read_text(body, "/id"), None)
    } else if status == CONFLICT {
        decide_create(status, body, None, read_text(body, "/error"))
    } else {
        decide_create(status, body, None, None)
    }
}

/// What an update returns: success only where the provider answers 2xx for
/// the very machine that was addressed.
pub open spec fn update_outcome(
    status: u16,
    body: Seq<char>,
    id: Option<Seq<char>>,
    machine_id: Seq<char>,
) -> Result<(), ErrorView> {
    if is_success(status) {
        match id {
            None => Err(decode(body)),
            Some(got) => if got == machine_id {
                Ok(())
            } else {
                Err(ErrorView::UnexpectedId { expected: machine_id, got })
            },
        }
    } else {
        Err(remote(status, body))
    }
}

/// Decides the outcome of an update from its reply and the `id` member
/// already read from the body.
pub fn decide_update(status: u16, body: &str, id: Option<String>, machine_id: &str) -> (r: Result<
    (),
    ActivityError,
>)
    ensures
        unit_outcome(r) == update_outcome(status, body@, opt_text(id), machine_id@),
{
    if status_is_success(status) {
        match id {
            None => Err(ActivityError::decode(body)),
            Some(got) => if same_text(got.as_str(), machine_id) {
                Ok(())
            } else {
                Err(ActivityError::UnexpectedId { expected: String::from_str(machine_id), got })
            },
        }
    } else {
        Err(ActivityError::remote(status, body))
    }
}

/// Decides the outcome of an update from its reply.
pub fn resolve_update(status: u16, body: &str, machine_id: &str) -> (r: Result<(), ActivityError>)
    ensures
        unit_outcome(r) == update_outcome(
            status,
            body@,
            text_member(body@, "/id"@),
            machine_id@,
        ),
{
    if status_is_success(status) {
        decide_update(status, body, read_text(body, "/id"), machine_id)
    } else {
        decide_update(status, body, None, machine_id)
    }
}

/// A change of a machine's run state.
#[derive(Clone, Copy, Debug, PartialEq, Eq, Structural)]
pub enum MachineChange {
    Stop,
    Suspend,
    Start,
    Restart,
}

/// The last path segment of the endpoint that performs `change`.
pub open spec fn change_suffix(change: MachineChange) -> Seq<char> {
    match change {
        MachineChange::Stop => "stop"@,
        MachineChange::Suspend => "suspend"@,
        MachineChange::Start => "start"@,
        MachineChange::Restart => "restart"@,
    }
}

impl MachineChange {
    /// The last path segment of the endpoint that performs the change.
    pub fn url_suffix(&self) -> (suffix: &'static str)
        ensures
            suffix@ == change_suffix(*self),
    {
        match self {
            MachineChange::Stop => "stop",
            MachineChange::Suspend => "suspend",
            MachineChange::Start => "start",
            MachineChange::Restart => "restart",
        }
    }
}

/// The request that lists the machines of `app`.
pub fn list_request(app: &AppName) -> (request: Request)
    ensures
        request@ == (RequestView { method: Method::Get, url: app_url(app@, "/machines"@) }),
{
    Request { method: Method::Get, url: build_app_url(app, "/machines") }
}

/// The request that creates a machine in `app`.
pub fn create_request(app: &AppName) -> (request: Request)
    ensures
        request@ == (RequestView { method: Method::Post, url: app_url(app@, "/machines"@) }),
{
    Request { method: Method::Post, url: build_app_url(app, "/machines") }
}

/// The path of the machine `id` below its app.
pub open spec fn machine_path(id: Seq<char>) -> Seq<char> {
    "/machines/"@ + id
}

/// Builds the path of the machine `id` below its app.
fn build_machine_path(id: &MachineId) -> (path: String)
    ensures
        path@ == machine_path(id@),
{
    let mut path = String::from_str("/machines/");
    path.append(id.as_ref());
    path
}

/// The request that reads the machine `id` of `app`.
pub fn get_request(app: &AppName, id: &MachineId) -> (request: Request)
    ensures
        request@ == (RequestView { method: Method::Get, url: app_url(app@, machine_path(id@)) }),
{
    let path = build_machine_path(id);
    Request { method: Method::Get, url: build_app_url(app, path.as_str()) }
}

/// The request that updates the machine `id` of `app`.
pub fn update_request(app: &AppName, id: &MachineId) -> (request: Request)
    ensures
        request@ == (RequestView { method: Method::Post, url: app_url(app@, machine_path(id@)) }),
{
    let path = build_machine_path(id);
    Request { method: Method::Post, url: build_app_url(app, path.as_str()) }
}

/// The request that runs a command on the machine `id` of `app`.
pub fn exec_request(app: &AppName, id: &MachineId) -> (request: Request)
    ensures
        request@ == (RequestView {
            method: Method::Post,
            url: app_url(app@, machine_path(id@) + "/exec"@),
        }),
{
    let mut path = build_machine_path(id);
    path.append("/exec");
    Request { method: Method::Post, url: build_app_url(app, path.as_str()) }
}

/// The request that performs `change` on the machine `id` of `app`.
pub fn change_machine(app: &AppName, id: &MachineId, change: MachineChange) -> (request: Request)
    ensures
        request@ == (RequestView {
            method: Method::Post,
            url: app_url(app@, machine_path(id@) + "/"@ + change_suffix(change)),
        }),
{
    let mut path = build_machine_path(id);
    path.append("/");
    path.append(change.url_suffix());
    Request { method: Method::Post, url: build_app_url(app, path.as_str()) }
}

/// `true` or `false`, as a query value.
pub open spec fn flag_text(flag: bool) -> Seq<char> {
    if flag {
        "true"@
    } else {
        "false"@
    }
}

/// The request that deletes the machine `id` of `app`, by force where
/// `force` is set.
pub fn delete_request(app: &AppName, id: &MachineId, force: bool) -> (request: Request)
    ensures
        request@ == (RequestView {
            method: Method::Delete,
            url: app_url(app@, machine_path(id@) + "?force="@ + flag_text(force)),
        }),
{
    let mut path = build_machine_path(id);
    path.append("?force=");
    path.append(if force {
        "true"
    } else {
        "false"
    });
    Request { method: Method::Delete, url: build_app_url(app, path.as_str()) }
}

/// What a command that ran on a machine left behind.
#[derive(Clone, Debug, PartialEq, Eq)]
pub struct ExecResponse {
    pub exit_code: Option<i32>,
    pub exit_signal: Option<i32>,
    pub stderr: Option<String>,
    pub stdout: Option<String>,
}

/// The text of an output stream; empty where the stream was not captured.
pub open spec fn stream_text(stream: Option<String>) -> Seq<char> {
    match stream {
        Some(text) => text@,
        None => Seq::empty(),
    }
}

/// A copy of the stream's text, empty where there is none.
fn stream_or_empty(stream: &Option<String>) -> (text: String)
    ensures
        text@ == stream_text(*stream),
{
    match stream {
        Some(text) => text.clone(),
        None => String::new(),
    }
}

/// Accepts the response of a command exactly where it exited with status
/// zero, and hands it back unchanged; any other exit status, and none at
/// all, is the command's failure.
pub fn exec_check_success(response: ExecResponse) -> (r: Result<ExecResponse, ActivityError>)
    ensures
        r is Ok <==> response.exit_code == Some(0i32),
        r matches Ok(accepted) ==> accepted == response,
        r matches Err(e) ==> e@ == (ErrorView::NonZeroExit {
            exit_code: response.exit_code,
            stderr: stream_text(response.stderr),
            stdout: stream_text(response.stdout),
        }),
{
    match response.exit_code {
        Some(0) => Ok(response),
        _ => Err(
            ActivityError::NonZeroExit {
                exit_code: response.exit_code,
                stderr: stream_or_empty(&response.stderr),
                stdout: stream_or_empty(&response.stdout),
            },
        ),
    }
}

/// A message is read as a conflict exactly when the prefix opens it and the
/// suffix stands somewhere after the prefix.
pub proof fn lemma_conflict_id_found_iff(message: Seq<char>)
    ensures
        conflict_machine_id(message) is Some <==> {
            &&& occurs_at(message, CONFLICT_PREFIX@, 0)
            &&& contains_text(message.skip(CONFLICT_PREFIX@.len() as int), CONFLICT_SUFFIX@)
        },
{
}

/// A message that does not open with the prefix carries no id, wherever else
/// the prefix may stand in it.
pub proof fn lemma_conflict_id_needs_leading_prefix(message: Seq<char>)
    requires
        !occurs_at(message, CONFLICT_PREFIX@, 0),
    ensures
        conflict_machine_id(message) is None,
{
}

/// A message in which the suffix stands nowhere carries no id.
pub proof fn lemma_conflict_id_needs_suffix(message: Seq<char>)
    requires
        !contains_text(message, CONFLICT_SUFFIX@),
    ensures
        conflict_machine_id(message) is None,
{
    let skipped = CONFLICT_PREFIX@.len() as int;
    let rest = message.skip(skipped);
    if occurs_at(message, CONFLICT_PREFIX@, 0) && contains_text(rest, CONFLICT_SUFFIX@) {
        let i = choose|i: int| occurs_at(rest, CONFLICT_SUFFIX@, i);
        let n = CONFLICT_SUFFIX@.len();
        assert(message.subrange(skipped + i, skipped + i + n) =~= rest.subrange(i, i + n));
        assert(occurs_at(message, CONFLICT_SUFFIX@, skipped + i));
    }
}

/// From the provider's wording, prefix, id, suffix and any tail, exactly the
/// id comes back, provided the suffix does not already begin inside the id.
pub proof fn lemma_conflict_id_exact(id: Seq<char>, tail: Seq<char>)
    requires
        forall|j: int| 0 <= j < id.len() ==> !occurs_at(id + CONFLICT_SUFFIX@, CONFLICT_SUFFIX@, j),
    ensures
        conflict_machine_id(CONFLICT_PREFIX@ + id + CONFLICT_SUFFIX@ + tail) == Some(id),
{
    let prefix = CONFLICT_PREFIX@;
    let suffix = CONFLICT_SUFFIX@;
    let message = prefix + id + suffix + tail;
    let rest = message.skip(prefix.len() as int);
    assert(message.subrange(0, prefix.len() as int) =~= prefix);
    assert(rest =~= id + suffix + tail);
    assert(rest.subrange(id.len() as int, (id.len() + suffix.len()) as int) =~= suffix);
    assert forall|j: int| 0 <= j < id.len() implies !occurs_at(rest, suffix, j) by {
        assert(!occurs_at(id + suffix, suffix, j));
        if j + suffix.len() <= rest.len() {
            assert(rest.subrange(j, j + suffix.len()) =~= (id + suffix).subrange(
                j,
                j + suffix.len(),
            ));
        }
    }
    lemma_first_index_is(rest, suffix, id.len() as int);
    assert(rest.take(id.len() as int) =~= id);
}

/// An id without a space cannot hold the beginning of the suffix, so from
/// the provider's wording exactly that id comes back.
pub proof fn lemma_conflict_id_exact_without_spaces(id: Seq<char>, tail: Seq<char>)
    requires
        forall|i: int| 0 <= i < id.len() ==> id[i] != ' ',
    ensures
        conflict_machine_id(CONFLICT_PREFIX@ + id + CONFLICT_SUFFIX@ + tail) == Some(id),
{
    let suffix = CONFLICT_SUFFIX@;
    reveal_strlit(" already exists with name ");
    assert(suffix.len() > 0 && suffix[0] == ' ');
    assert forall|j: int| 0 <= j < id.len() implies !occurs_at(id + suffix, suffix, j) by {
        if j + suffix.len() <= (id + suffix).len() {
            assert((id + suffix).subrange(j, j + suffix.len())[0] == id[j]);
        }
    }
    lemma_conflict_id_exact(id, tail);
}

/// A conflict whose message has the provider's wording yields the id that
/// stands in the message, whatever else the body holds, and with it the
/// operation is over: a create is decided by its one reply.
pub proof fn lemma_conflict_yields_existing_id(
    body: Seq<char>,
    id_member: Option<Seq<char>>,
    id: Seq<char>,
    tail: Seq<char>,
)
    requires
        forall|j: int| 0 <= j < id.len() ==> !occurs_at(id + CONFLICT_SUFFIX@, CONFLICT_SUFFIX@, j),
    ensures
        create_outcome(
            CONFLICT,
            body,
            id_member,
            Some(CONFLICT_PREFIX@ + id + CONFLICT_SUFFIX@ + tail),
        ) == Ok::<Seq<char>, ErrorView>(id),
{
    lemma_conflict_id_exact(id, tail);
}

} // verus!
