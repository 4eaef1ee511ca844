//! The client side of a workflow engine's execution API: fresh execution
//! ids, and the requests that list executions and submit one.

use crate::error::{decode, remote, ActivityError, ErrorView};
use crate::http::{expect_success, is_success, Method, Request, RequestView};
use crate::json::{check_json, is_json};
use crate::text::concat2;
use vstd::prelude::*;
use vstd::string::StringExecFns;

verus! {

/// A digit of Crockford's base 32: a decimal digit or an upper-case letter
/// other than I, L, O and U.
pub open spec fn is_crockford(c: char) -> bool {
    ||| '0' <= c <= '9'
    ||| ('A' <= c <= 'Z' && c != 'I' && c != 'L' && c != 'O' && c != 'U')
}

/// The length of a ULID in text.
pub const ULID_LEN: usize = 26;

/// A ULID in text: 26 digits of Crockford's base 32.
pub open spec fn is_ulid_text(s: Seq<char>) -> bool {
    &&& s.len() == ULID_LEN
    &&& forall|i: int| 0 <= i < s.len() ==> is_crockford(#[trigger] s[i])
}

/// A fresh ULID in text.
///
/// Trusted: stands for `ulid::Ulid::new` followed by `Ulid::to_string`.
/// The value depends on the clock and on chance; the contract states only
/// the shape that the encoder gives every value.
#[verifier::external_body]
fn new_ulid() -> (text: String)
    ensures
        is_ulid_text(text@),
{
    ulid::Ulid::new().to_string()
}

/// What opens every execution id.
pub const EXECUTION_ID_PREFIX: &'static str = "E_";

/// An execution id: the prefix and a ULID.
pub open spec fn is_execution_id(id: Seq<char>) -> bool {
    exists|ulid: Seq<char>| #[trigger] is_ulid_text(ulid) && id == EXECUTION_ID_PREFIX@ + ulid
}

/// The execution id made of the given ULID.
pub fn execution_id_of(ulid: &str) -> (id: String)
    ensures
        id@ == EXECUTION_ID_PREFIX@ + ulid@,
{
    concat2(EXECUTION_ID_PREFIX, ulid)
}

/// A fresh execution id. Two calls need not agree.
pub fn generate() -> (id: String)
    ensures
        is_execution_id(id@),
{
    let ulid = new_ulid();
    execution_id_of(ulid.as_str())
}

/// The URL of the executions of the engine at `endpoint`.
pub open spec fn executions_url(endpoint: Seq<char>) -> Seq<char> {
    endpoint + "/v1/executions"@
}

/// The request that lists the executions of the engine at `endpoint_url`.
pub fn list_request(endpoint_url: &str) -> (request: Request)
    ensures
        request@ == (RequestView { method: Method::Get, url: executions_url(endpoint_url@) }),
{
    Request { method: Method::Get, url: concat2(endpoint_url, "/v1/executions") }
}

/// What a submission asks for, given whether `params` is one JSON value:
/// the request that puts the execution, or a decode error, before anything
/// is sent, where the parameters are no JSON.
pub open spec fn submit_request(
    endpoint: Seq<char>,
    execution_id: Seq<char>,
    params: Seq<char>,
    params_are_json: bool,
) -> Result<RequestView, ErrorView> {
    if params_are_json {
        Ok(
            RequestView {
                method: Method::Put,
                url: executions_url(endpoint) + "/"@ + execution_id,
            },
        )
    } else {
        Err(decode(params))
    }
}

/// Decides the request of a submission, the parameters already checked.
pub fn decide_submit(
    endpoint_url: &str,
    execution_id: &str,
    params: &str,
    params_are_json: bool,
) -> (r: Result<Request, ActivityError>)
    ensures
        match r {
            Ok(request) => submit_request(endpoint_url@, execution_id@, params@, params_are_json)
                == Ok::<RequestView, ErrorView>(request@),
            Err(e) => submit_request(endpoint_url@, execution_id@, params@, params_are_json)
                == Err::<RequestView, ErrorView>(e@),
        },
{
    if params_are_json {
        let mut url = concat2(endpoint_url, "/v1/executions");
        url.append("/");
        url.append(execution_id);
        Ok(Request { method: Method::Put, url })
    } else {
        Err(ActivityError::decode(params))
    }
}

/// The request that submits the execution `execution_id` with the
/// parameters `params`, which must be one JSON value.
pub fn submit(endpoint_url: &str, execution_id: &str, params: &str) -> (r: Result<
    Request,
    ActivityError,
>)
    ensures
        match r {
            Ok(request) => submit_request(endpoint_url@, execution_id@, params@, is_json(params@))
                == Ok::<RequestView, ErrorView>(request@),
            Err(e) => submit_request(endpoint_url@, execution_id@, params@, is_json(params@))
                == Err::<RequestView, ErrorView>(e@),
        },
{
    decide_submit(endpoint_url, execution_id, params, check_json(params))
}

/// What the reply to a submission yields: nothing on 2xx, else the remote
/// error.
pub fn resolve_submit(status: u16, body: &str) -> (r: Result<(), ActivityError>)
    ensures
        r is Ok <==> is_success(status),
        r matches Err(e) ==> e@ == remote(status, body@),
{
    expect_success(status, body)
}

} // verus!
