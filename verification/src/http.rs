//! What the reconciler knows of HTTP: the request methods it uses and the
//! status codes that carry meaning for it.

use crate::error::{remote, ActivityError, ErrorView};
use vstd::prelude::*;

verus! {

/// The resource does not exist.
pub const NOT_FOUND: u16 = 404;

/// A create collided with an existing resource.
pub const CONFLICT: u16 = 409;

/// The provider understood the request and refused it.
pub const UNPROCESSABLE_ENTITY: u16 = 422;

/// The request methods the reconciler issues.
#[derive(Clone, Copy, Debug, PartialEq, Eq, Structural)]
pub enum Method {
    Get,
    Post,
    Put,
    Delete,
}

/// A request, without its headers and body: the transport adds the
/// authorization header and whatever body the call carries.
#[derive(Clone, Debug, PartialEq, Eq)]
pub struct Request {
    pub method: Method,
    pub url: String,
}

/// The mathematical counterpart of [`Request`].
pub struct RequestView {
    pub method: Method,
    pub url: Seq<char>,
}

impl View for Request {
    type V = RequestView;

    open spec fn view(&self) -> RequestView {
        RequestView { method: self.method, url: self.url@ }
    }
}

/// A status in the 2xx class.
pub open spec fn is_success(status: u16) -> bool {
    200 <= status < 300
}

/// Whether `status` is in the 2xx class.
pub fn status_is_success(status: u16) -> (ok: bool)
    ensures
        ok == is_success(status),
{
    200 <= status && status < 300
}

/// A non-2xx reply as an error: `Ok` exactly for a 2xx status.
pub fn expect_success(status: u16, body: &str) -> (r: Result<(), ActivityError>)
    ensures
        r is Ok <==> is_success(status),
        r matches Err(e) ==> e@ == remote(status, body@),
{
    if status_is_success(status) {
        Ok(())
    } else {
        Err(ActivityError::remote(status, body))
    }
}

/// Whether a read found its resource.
#[derive(Clone, Debug, PartialEq, Eq)]
pub enum Lookup {
    /// 2xx: the body describes the resource.
    Found,
    /// Not found: the resource does not exist.
    Missing,
}

/// What a read of one resource yields: found on 2xx, missing on not found,
/// the remote error on any other status.
pub open spec fn lookup_outcome(status: u16, body: Seq<char>) -> Result<Lookup, ErrorView> {
    if is_success(status) {
        Ok(Lookup::Found)
    } else if status == NOT_FOUND {
        Ok(Lookup::Missing)
    } else {
        Err(remote(status, body))
    }
}

/// Decides from the reply to a read whether the resource exists.
pub fn resolve_lookup(status: u16, body: &str) -> (r: Result<Lookup, ActivityError>)
    ensures
        match r {
            Ok(found) => lookup_outcome(status, body@) == Ok::<Lookup, ErrorView>(found),
            Err(e) => lookup_outcome(status, body@) == Err::<Lookup, ErrorView>(e@),
        },
{
    if status_is_success(status) {
        Ok(Lookup::Found)
    } else if status == NOT_FOUND {
        Ok(Lookup::Missing)
    } else {
        Err(ActivityError::remote(status, body))
    }
}

} // verus!
