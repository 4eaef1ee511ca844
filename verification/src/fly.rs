//! The provider's control-plane API: where it lives, how a request is
//! authorized, and one module for each kind of resource.

pub mod allocate;
pub mod apps;
pub mod ips;
pub mod machine;
pub mod secrets;
pub mod volumes;

use crate::error::{ActivityError, ErrorView};
use crate::slug::AppName;
use crate::text::concat2;
use vstd::prelude::*;
use vstd::string::StringExecFns;

verus! {

/// The root of the provider's control-plane API.
pub const API_BASE_URL: &'static str = "https://api.machines.dev/v1";

/// The URL of something that belongs to the app `app`: the base, `/apps/`,
/// the app's name and `rest`.
pub open spec fn app_url(app: Seq<char>, rest: Seq<char>) -> Seq<char> {
    API_BASE_URL@ + "/apps/"@ + app + rest
}

/// Builds the URL of something that belongs to `app`.
pub fn build_app_url(app: &AppName, rest: &str) -> (url: String)
    ensures
        url@ == app_url(app@, rest@),
{
    let mut url = String::from_str(API_BASE_URL);
    url.append("/apps/");
    url.append(app.as_ref());
    url.append(rest);
    url
}

/// The value of the `Authorization` header for a bearer token.
pub open spec fn bearer(token: Seq<char>) -> Seq<char> {
    "Bearer "@ + token
}

/// The `Authorization` header value for `api_token`, or the configuration
/// error when no token was supplied. No request can be built without it.
pub fn authorization(api_token: Option<&str>) -> (header: Result<String, ActivityError>)
    ensures
        match api_token {
            Some(token) => header matches Ok(h) && h@ == bearer(token@),
            None => header matches Err(e) && e@ == ErrorView::Configuration,
        },
{
    match api_token {
        Some(token) => Ok(concat2("Bearer ", token)),
        None => Err(ActivityError::Configuration),
    }
}

} // verus!
