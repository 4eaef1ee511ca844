//! Secrets: the requests of the secret endpoints, and refusals that name
//! the app and the secret.

use crate::error::{unit_outcome, ActivityError, ErrorView};
use crate::fly::{app_url, build_app_url};
use crate::http::{is_success, status_is_success, Method, Request, RequestView};
use crate::slug::{AppName, SecretKey};
use vstd::prelude::*;
use vstd::string::StringExecFns;

verus! {

/// The path of the secret `key` below its app.
pub open spec fn secret_path(key: Seq<char>) -> Seq<char> {
    "/secrets/"@ + key
}

/// Builds the path of the secret `key` below its app.
fn build_secret_path(key: &SecretKey) -> (path: String)
    ensures
        path@ == secret_path(key@),
{
    let mut path = String::from_str("/secrets/");
    path.append(key.as_ref());
    path
}

/// The request that lists the secrets of `app`.
pub fn list_request(app: &AppName) -> (request: Request)
    ensures
        request@ == (RequestView { method: Method::Get, url: app_url(app@, "/secrets"@) }),
{
    Request { method: Method::Get, url: build_app_url(app, "/secrets") }
}

/// The request that deletes the secret `key` of `app`.
pub fn delete_request(app: &AppName, key: &SecretKey) -> (request: Request)
    ensures
        request@ == (RequestView { method: Method::Delete, url: app_url(app@, secret_path(key@)) }),
{
    let path = build_secret_path(key);
    Request { method: Method::Delete, url: build_app_url(app, path.as_str()) }
}

/// The request that sets the secret `key` of `app`.
pub fn put_request(app: &AppName, key: &SecretKey) -> (request: Request)
    ensures
        request@ == (RequestView { method: Method::Post, url: app_url(app@, secret_path(key@)) }),
{
    let path = build_secret_path(key);
    Request { method: Method::Post, url: build_app_url(app, path.as_str()) }
}

/// What a listing of secrets was about: `list secrets for app '<app>'`.
pub open spec fn listing_of(app: Seq<char>) -> Seq<char> {
    "list secrets for app '"@ + app + "'"@
}

/// What a change of a secret was about:
/// `<verb> secret '<key>' for app '<app>'`.
pub open spec fn change_of(verb: Seq<char>, key: Seq<char>, app: Seq<char>) -> Seq<char> {
    verb + " secret '"@ + key + "' for app '"@ + app + "'"@
}

/// What the reply to `what` yields: nothing on 2xx, else the refusal, which
/// names what was asked and embeds status and body.
pub open spec fn secret_outcome(what: Seq<char>, status: u16, body: Seq<char>) -> Result<
    (),
    ErrorView,
> {
    if is_success(status) {
        Ok(())
    } else {
        Err(ErrorView::Refused { what, status, body })
    }
}

/// Decides the outcome of `what` from its reply.
fn resolve(what: String, status: u16, body: &str) -> (r: Result<(), ActivityError>)
    ensures
        unit_outcome(r) == secret_outcome(what@, status, body@),
{
    if status_is_success(status) {
        Ok(())
    } else {
        Err(ActivityError::Refused { what, status, body: String::from_str(body) })
    }
}

/// Says what a change of a secret was about.
fn describe_change(verb: &str, app: &AppName, key: &SecretKey) -> (what: String)
    ensures
        what@ == change_of(verb@, key@, app@),
{
    let mut what = String::from_str(verb);
    what.append(" secret '");
    what.append(key.as_ref());
    what.append("' for app '");
    what.append(app.as_ref());
    what.append("'");
    what
}

/// Decides the outcome of a listing of the secrets of `app` from its
/// reply.
pub fn list_secrets(app: &AppName, status: u16, body: &str) -> (r: Result<(), ActivityError>)
    ensures
        unit_outcome(r) == secret_outcome(listing_of(app@), status, body@),
{
    let mut what = String::from_str("list secrets for app '");
    what.append(app.as_ref());
    what.append("'");
    resolve(what, status, body)
}

/// Decides the outcome of the deletion of the secret `key` of `app` from
/// its reply.
pub fn delete_secret(app: &AppName, key: &SecretKey, status: u16, body: &str) -> (r: Result<
    (),
    ActivityError,
>)
    ensures
        unit_outcome(r) == secret_outcome(change_of("delete"@, key@, app@), status, body@),
{
    resolve(describe_change("delete", app, key), status, body)
}

/// Decides the outcome of the setting of the secret `key` of `app` from
/// its reply.
pub fn put_secret(app: &AppName, key: &SecretKey, status: u16, body: &str) -> (r: Result<
    (),
    ActivityError,
>)
    ensures
        unit_outcome(r) == secret_outcome(change_of("put"@, key@, app@), status, body@),
{
    resolve(describe_change("put", app, key), status, body)
}

} // verus!
