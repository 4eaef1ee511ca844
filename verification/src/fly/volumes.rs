//! Volumes: the requests of the volume endpoints.

use crate::fly::{app_url, build_app_url};
use crate::http::{Method, Request, RequestView};
use crate::slug::{AppName, VolumeId};
use vstd::prelude::*;
use vstd::string::StringExecFns;

verus! {

/// The path of the volume `id` below its app.
pub open spec fn volume_path(id: Seq<char>) -> Seq<char> {
    "/volumes/"@ + id
}

/// Builds the path of the volume `id` below its app.
fn build_volume_path(id: &VolumeId) -> (path: String)
    ensures
        path@ == volume_path(id@),
{
    let mut path = String::from_str("/volumes/");
    path.append(id.as_ref());
    path
}

/// The request that lists the volumes of `app`.
pub fn list_request(app: &AppName) -> (request: Request)
    ensures
        request@ == (RequestView { method: Method::Get, url: app_url(app@, "/volumes"@) }),
{
    Request { method: Method::Get, url: build_app_url(app, "/volumes") }
}

/// The request that creates a volume in `app`.
pub fn create_request(app: &AppName) -> (request: Request)
    ensures
        request@ == (RequestView { method: Method::Post, url: app_url(app@, "/volumes"@) }),
{
    Request { method: Method::Post, url: build_app_url(app, "/volumes") }
}

/// The request that reads the volume `id` of `app`.
pub fn get_request(app: &AppName, id: &VolumeId) -> (request: Request)
    ensures
        request@ == (RequestView { method: Method::Get, url: app_url(app@, volume_path(id@)) }),
{
    let path = build_volume_path(id);
    Request { method: Method::Get, url: build_app_url(app, path.as_str()) }
}

/// The request that deletes the volume `id` of `app`.
pub fn delete_request(app: &AppName, id: &VolumeId) -> (request: Request)
    ensures
        request@ == (RequestView { method: Method::Delete, url: app_url(app@, volume_path(id@)) }),
{
    let path = build_volume_path(id);
    Request { method: Method::Delete, url: build_app_url(app, path.as_str()) }
}

/// The request that extends the volume `id` of `app`.
pub fn extend_request(app: &AppName, id: &VolumeId) -> (request: Request)
    ensures
        request@ == (RequestView {
            method: Method::Put,
            url: app_url(app@, volume_path(id@) + "/extend"@),
        }),
{
    let mut path = build_volume_path(id);
    path.append("/extend");
    Request { method: Method::Put, url: build_app_url(app, path.as_str()) }
}

} // verus!
