//! Apps: put-if-absent. The provider refuses to create an app whose name is
//! taken, by whatever organization. A refused create is followed by a probe
//! of the name: the app is accepted where it belongs to the organization
//! asked for, and is never taken over where it belongs to another.

use crate::error::{decode, remote, ActivityError, ErrorView};
use crate::fly::{app_url, build_app_url, API_BASE_URL};
use crate::http::{
    is_success, lookup_outcome, resolve_lookup, status_is_success, Lookup, Method, Request,
    RequestView, UNPROCESSABLE_ENTITY,
};
use crate::json::{json_items, read_items, read_text, text_member};
use crate::protocol::{Progress, ProgressView};
use crate::slug::{is_slug, AppName, OrgSlug};
use crate::text::{opt_text, same_text};
use vstd::prelude::*;
use vstd::string::StringExecFns;

verus! {

/// An app as the provider records it.
#[derive(Clone, Debug, PartialEq, Eq)]
pub struct App {
    pub name: String,
    pub id: String,
}

/// The mathematical counterpart of [`App`].
pub struct AppView {
    pub name: Seq<char>,
    pub id: Seq<char>,
}

impl View for App {
    type V = AppView;

    open spec fn view(&self) -> AppView {
        AppView { name: self.name@, id: self.id@ }
    }
}

/// The body of a create request.
#[derive(Clone, Debug, PartialEq, Eq)]
pub struct CreateAppRequest {
    pub app_name: String,
    pub org_slug: String,
}

/// A request of the put-if-absent protocol.
#[derive(Clone, Debug, PartialEq, Eq)]
pub enum AppCall {
    /// Create the app.
    Create(CreateAppRequest),
    /// Read the app that holds the name.
    Probe,
}

/// The mathematical counterpart of [`AppCall`].
pub enum AppCallView {
    Create { app_name: Seq<char>, org_slug: Seq<char> },
    Probe,
}

impl View for AppCall {
    type V = AppCallView;

    open spec fn view(&self) -> AppCallView {
        match self {
            AppCall::Create(request) => AppCallView::Create {
                app_name: request.app_name@,
                org_slug: request.org_slug@,
            },
            AppCall::Probe => AppCallView::Probe,
        }
    }
}

/// Where a put stands between two requests.
#[derive(Debug, PartialEq, Eq)]
pub enum Put {
    /// The create was requested.
    AwaitingCreate { org_slug: OrgSlug, app_name: AppName },
    /// The create was refused as unprocessable with `create_body`; the
    /// probe was requested.
    AwaitingProbe { org_slug: OrgSlug, app_name: AppName, create_body: String },
}

/// The mathematical counterpart of [`Put`].
pub enum PutView {
    AwaitingCreate { org_slug: Seq<char>, app_name: Seq<char> },
    AwaitingProbe { org_slug: Seq<char>, app_name: Seq<char>, create_body: Seq<char> },
}

impl View for Put {
    type V = PutView;

    open spec fn view(&self) -> PutView {
        match self {
            Put::AwaitingCreate { org_slug, app_name } => PutView::AwaitingCreate {
                org_slug: org_slug@,
                app_name: app_name@,
            },
            Put::AwaitingProbe { org_slug, app_name, create_body } => PutView::AwaitingProbe {
                org_slug: org_slug@,
                app_name: app_name@,
                create_body: create_body@,
            },
        }
    }
}

/// The URL of the collection of all apps.
pub open spec fn apps_url() -> Seq<char> {
    API_BASE_URL@ + "/apps"@
}

/// The request that performs `call` for the app `app`: the create
/// addresses the collection, the probe the app by its name.
pub open spec fn app_request(app: Seq<char>, call: AppCallView) -> RequestView {
    match call {
        AppCallView::Create { .. } => RequestView { method: Method::Post, url: apps_url() },
        AppCallView::Probe => RequestView { method: Method::Get, url: app_url(app, Seq::empty()) },
    }
}

/// Builds the request that performs `call` for `app`.
pub fn request_for(app: &AppName, call: &AppCall) -> (request: Request)
    ensures
        request@ == app_request(app@, call@),
{
    match call {
        AppCall::Create(_) => {
            let mut url = String::from_str(API_BASE_URL);
            url.append("/apps");
            Request { method: Method::Post, url }
        },
        AppCall::Probe => get_request(app),
    }
}

/// The request that reads the app `app`.
pub fn get_request(app: &AppName) -> (request: Request)
    ensures
        request@ == (RequestView { method: Method::Get, url: app_url(app@, Seq::empty()) }),
{
    proof {
        reveal_strlit("");
        assert(""@ =~= Seq::<char>::empty());
    }
    Request { method: Method::Get, url: build_app_url(app, "") }
}

/// The request that lists the apps of the organization `org`.
pub fn list_request(org: &OrgSlug) -> (request: Request)
    ensures
        request@ == (RequestView {
            method: Method::Get,
            url: apps_url() + "?org_slug="@ + org@,
        }),
{
    let mut url = String::from_str(API_BASE_URL);
    url.append("/apps");
    url.append("?org_slug=");
    url.append(org.as_ref());
    Request { method: Method::Get, url }
}

/// The request that deletes the app `app`, by force where `force` is set.
pub fn delete_request(app: &AppName, force: bool) -> (request: Request)
    ensures
        request@ == (RequestView {
            method: Method::Delete,
            url: app_url(
                app@,
                if force {
                    "?force=true"@
                } else {
                    Seq::empty()
                },
            ),
        }),
{
    proof {
        reveal_strlit("");
        assert(""@ =~= Seq::<char>::empty());
    }
    Request {
        method: Method::Delete,
        url: build_app_url(
            app,
            if force {
                "?force=true"
            } else {
                ""
            },
        ),
    }
}

/// The app that a JSON text describes by its string members `name` and
/// `id`, if it has both.
pub open spec fn app_of(name: Option<Seq<char>>, id: Option<Seq<char>>) -> Option<AppView> {
    if name is Some && id is Some {
        Some(AppView { name: name->0, id: id->0 })
    } else {
        None
    }
}

/// Builds an app from the two members already read from its description.
pub fn decide_app(name: Option<String>, id: Option<String>) -> (app: Option<App>)
    ensures
        app is Some <==> app_of(opt_text(name), opt_text(id)) is Some,
        app matches Some(a) ==> app_of(opt_text(name), opt_text(id)) == Some(a@),
{
    match (name, id) {
        (Some(name), Some(id)) => Some(App { name, id }),
        _ => None,
    }
}

/// The app that the JSON text `body` describes.
pub open spec fn described_app(body: Seq<char>) -> Option<AppView> {
    app_of(text_member(body, "/name"@), text_member(body, "/id"@))
}

/// Reads an app from its description.
pub fn read_app(body: &str) -> (app: Option<App>)
    ensures
        app is Some <==> described_app(body@) is Some,
        app matches Some(a) ==> described_app(body@) == Some(a@),
{
    decide_app(read_text(body, "/name"), read_text(body, "/id"))
}

/// What a read of one app yields: the app on 2xx, nothing on not found,
/// and an error on any other status or where a 2xx body describes no app.
pub open spec fn get_outcome(status: u16, body: Seq<char>) -> Result<Option<AppView>, ErrorView> {
    match lookup_outcome(status, body) {
        Err(e) => Err(e),
        Ok(Lookup::Missing) => Ok(None),
        Ok(Lookup::Found) => match described_app(body) {
            Some(app) => Ok(Some(app)),
            None => Err(decode(body)),
        },
    }
}

/// Decides the outcome of a read of one app from its reply.
pub fn resolve_get(status: u16, body: &str) -> (r: Result<Option<App>, ActivityError>)
    ensures
        match r {
            Ok(Some(app)) => get_outcome(status, body@) == Ok::<Option<AppView>, ErrorView>(
                Some(app@),
            ),
            Ok(None) => get_outcome(status, body@) == Ok::<Option<AppView>, ErrorView>(None),
            Err(e) => get_outcome(status, body@) == Err::<Option<AppView>, ErrorView>(e@),
        },
{
    match resolve_lookup(status, body) {
        Err(e) => Err(e),
        Ok(Lookup::Missing) => Ok(None),
        Ok(Lookup::Found) => match read_app(body) {
            Some(app) => Ok(Some(app)),
            None => Err(ActivityError::decode(body)),
        },
    }
}

/// Every element describes an app.
pub open spec fn all_apps(items: Seq<Seq<char>>) -> bool {
    forall|i: int| 0 <= i < items.len() ==> (#[trigger] described_app(items[i])) is Some
}

/// What a listing of apps yields: on 2xx the apps of the array `apps`, in
/// order, and a decode error where the body has no such array or one
/// element describes no app; otherwise the remote error.
pub open spec fn list_outcome(status: u16, body: Seq<char>) -> Result<Seq<AppView>, ErrorView> {
    if !is_success(status) {
        Err(remote(status, body))
    } else {
        match json_items(body, "/apps"@) {
            None => Err(decode(body)),
            Some(items) => if all_apps(items) {
                Ok(Seq::new(items.len(), |i: int| described_app(items[i])->0))
            } else {
                Err(decode(body))
            },
        }
    }
}

/// The views of a list of apps, in order.
pub open spec fn apps_view(apps: Seq<App>) -> Seq<AppView> {
    Seq::new(apps.len(), |i: int| apps[i]@)
}

/// Decides the outcome of a listing of apps from its reply.
pub fn resolve_list(status: u16, body: &str) -> (r: Result<Vec<App>, ActivityError>)
    ensures
        match r {
            Ok(apps) => list_outcome(status, body@) == Ok::<Seq<AppView>, ErrorView>(
                apps_view(apps@),
            ),
            Err(e) => list_outcome(status, body@) == Err::<Seq<AppView>, ErrorView>(e@),
        },
{
    if !status_is_success(status) {
        return Err(ActivityError::remote(status, body));
    }
    let items = match read_items(body, "/apps") {
        None => {
            return Err(ActivityError::decode(body));
        },
        Some(items) => items,
    };
    let ghost texts = json_items(body@, "/apps"@)->0;
    let mut apps: Vec<App> = Vec::new();
    let mut i: usize = 0;
    while i < items.len()
        invariant
            i <= items.len(),
            items.deep_view() == texts,
            apps.len() == i,
            is_success(status),
            json_items(body@, "/apps"@) == Some(texts),
            forall|j: int| 0 <= j < i ==> (#[trigger] described_app(texts[j])) == Some(apps@[j]@),
        decreases items.len() - i,
    {
        let item = items[i].as_str();
        assert(item@ == texts[i as int]);
        match read_app(item) {
            None => {
                assert(described_app(texts[i as int]) is None);
                return Err(ActivityError::decode(body));
            },
            Some(app) => {
                apps.push(app);
            },
        }
        i += 1;
    }
    assert(all_apps(texts));
    assert(apps_view(apps@) =~= Seq::new(texts.len(), |i: int| described_app(texts[i])->0));
    Ok(apps)
}

/// Where a put goes after a reply.
pub type PutProgress = ProgressView<PutView, AppCallView, AppView>;

/// What follows the reply to the create, given the string member `id` of
/// its body: on 2xx the new app, under the name asked for; on
/// unprocessable the probe; on any other status the remote error.
pub open spec fn after_create(
    org_slug: Seq<char>,
    app_name: Seq<char>,
    status: u16,
    body: Seq<char>,
    id: Option<Seq<char>>,
) -> PutProgress {
    if is_success(status) {
        match id {
            Some(id) => PutProgress::Done(Ok(AppView { name: app_name, id })),
            None => PutProgress::Done(Err(decode(body))),
        }
    } else if status == UNPROCESSABLE_ENTITY {
        PutProgress::Continue {
            state: PutView::AwaitingProbe { org_slug, app_name, create_body: body },
            call: AppCallView::Probe,
        }
    } else {
        PutProgress::Done(Err(remote(status, body)))
    }
}

/// What the reply to the probe yields, given the string members `id`,
/// `name` and `organization.slug` of its body.
///
/// A probe that fails decides nothing: the refused create is the failure
/// reported, with its own body. A probe that finds the app under the
/// organization asked for yields that app; under another organization it
/// yields the mismatch, naming the app and both organizations.
pub open spec fn after_probe(
    org_slug: Seq<char>,
    app_name: Seq<char>,
    create_body: Seq<char>,
    status: u16,
    body: Seq<char>,
    id: Option<Seq<char>>,
    name: Option<Seq<char>>,
    owner: Option<Seq<char>>,
) -> Result<AppView, ErrorView> {
    if is_success(status) {
        if id is Some && name is Some && owner is Some {
            if owner->0 == org_slug {
                Ok(AppView { name: name->0, id: id->0 })
            } else {
                Err(
                    ErrorView::SemanticMismatch {
                        resource: app_name,
                        actual: owner->0,
                        requested: org_slug,
                    },
                )
            }
        } else {
            Err(decode(body))
        }
    } else {
        Err(ErrorView::ConflictUnresolvable { status: UNPROCESSABLE_ENTITY, body: create_body })
    }
}

/// The protocol's rule: what follows the reply `status`, `body` in `state`.
pub open spec fn put_follows(state: PutView, status: u16, body: Seq<char>) -> PutProgress {
    match state {
        PutView::AwaitingCreate { org_slug, app_name } => after_create(
            org_slug,
            app_name,
            status,
            body,
            text_member(body, "/id"@),
        ),
        PutView::AwaitingProbe { org_slug, app_name, create_body } => PutProgress::Done(
            after_probe(
                org_slug,
                app_name,
                create_body,
                status,
                body,
                text_member(body, "/id"@),
                text_member(body, "/name"@),
                text_member(body, "/organization/slug"@),
            ),
        ),
    }
}

/// The view of a put's outcome.
pub open spec fn app_outcome(r: Result<App, ActivityError>) -> Result<AppView, ErrorView> {
    match r {
        Ok(app) => Ok(app@),
        Err(e) => Err(e@),
    }
}

/// Starts a put of `app_name` under `org_slug`: the first request is the
/// create.
pub fn begin_put(org_slug: OrgSlug, app_name: AppName) -> (start: (Put, AppCall))
    ensures
        start.0@ == (PutView::AwaitingCreate { org_slug: org_slug@, app_name: app_name@ }),
        start.1@ == (AppCallView::Create { app_name: app_name@, org_slug: org_slug@ }),
{
    let request = CreateAppRequest {
        app_name: String::from_str(app_name.as_ref()),
        org_slug: String::from_str(org_slug.as_ref()),
    };
    (Put::AwaitingCreate { org_slug, app_name }, AppCall::Create(request))
}

/// Starts a put from the caller's raw texts: both are checked before
/// anything is sent, the organization first, and an identifier that fails
/// the check ends the operation with the validation error. The checked
/// name of the app comes back with the first request.
pub fn put(org_slug: String, app_name: String) -> (start: Result<
    (AppName, Put, AppCall),
    ActivityError,
>)
    ensures
        start is Ok <==> is_slug(org_slug@) && is_slug(app_name@),
        start matches Ok(s) ==> {
            &&& s.0@ == app_name@
            &&& s.1@ == (PutView::AwaitingCreate { org_slug: org_slug@, app_name: app_name@ })
            &&& s.2@ == (AppCallView::Create { app_name: app_name@, org_slug: org_slug@ })
        },
        start matches Err(e) ==> e@ == ErrorView::Validation,
{
    let org_slug = match OrgSlug::new(org_slug) {
        Ok(part) => part,
        Err(e) => {
            return Err(e);
        },
    };
    let app_name = match AppName::new(app_name) {
        Ok(part) => part,
        Err(e) => {
            return Err(e);
        },
    };
    let app = app_name.clone();
    let (state, call) = begin_put(org_slug, app_name);
    Ok((app, state, call))
}

/// Decides what follows the reply to the create, from the `id` member
/// already read from its body.
pub fn decide_create(
    org_slug: OrgSlug,
    app_name: AppName,
    status: u16,
    body: &str,
    id: Option<String>,
) -> (next: Progress<Put, AppCall, App>)
    ensures
        next@ == after_create(org_slug@, app_name@, status, body@, opt_text(id)),
{
    if status_is_success(status) {
        match id {
            Some(id) => Progress::Done(Ok(App { name: String::from_str(app_name.as_ref()), id })),
            None => Progress::Done(Err(ActivityError::decode(body))),
        }
    } else if status == UNPROCESSABLE_ENTITY {
        Progress::Continue {
            state: Put::AwaitingProbe { org_slug, app_name, create_body: String::from_str(body) },
            call: AppCall::Probe,
        }
    } else {
        Progress::Done(Err(ActivityError::remote(status, body)))
    }
}

/// Decides the outcome of a put from the reply to the probe and the
/// members already read from its body.
pub fn decide_probe(
    org_slug: &OrgSlug,
    app_name: &AppName,
    create_body: String,
    status: u16,
    body: &str,
    id: Option<String>,
    name: Option<String>,
    owner: Option<String>,
) -> (r: Result<App, ActivityError>)
    ensures
        app_outcome(r) == after_probe(
            org_slug@,
            app_name@,
            create_body@,
            status,
            body@,
            opt_text(id),
            opt_text(name),
            opt_text(owner),
        ),
{
    if !status_is_success(status) {
        return Err(
            ActivityError::ConflictUnresolvable { status: UNPROCESSABLE_ENTITY, body: create_body },
        );
    }
    match (id, name, owner) {
        (Some(id), Some(name), Some(owner)) => {
            if same_text(owner.as_str(), org_slug.as_ref()) {
                Ok(App { name, id })
            } else {
                Err(
                    ActivityError::SemanticMismatch {
                        resource: String::from_str(app_name.as_ref()),
                        actual: owner,
                        requested: String::from_str(org_slug.as_ref()),
                    },
                )
            }
        },
        _ => Err(ActivityError::decode(body)),
    }
}

/// Advances a put by the reply to its last request.
pub fn advance_put(state: Put, status: u16, body: &str) -> (next: Progress<Put, AppCall, App>)
    ensures
        next@ == put_follows(state@, status, body@),
{
    match state {
        Put::AwaitingCreate { org_slug, app_name } => {
            let id = if status_is_success(status) {
                read_text(body, "/id")
            } else {
                None
            };
            decide_create(org_slug, app_name, status, body, id)
        },
        Put::AwaitingProbe { org_slug, app_name, create_body } => {
            if status_is_success(status) {
                Progress::Done(
                    decide_probe(
                        &org_slug,
                        &app_name,
                        create_body,
                        status,
                        body,
                        read_text(body, "/id"),
                        read_text(body, "/name"),
                        read_text(body, "/organization/slug"),
                    ),
                )
            } else {
                Progress::Done(
                    decide_probe(&org_slug, &app_name, create_body, status, body, None, None, None),
                )
            }
        },
    }
}

/// A put sends at most two requests: the reply to the probe always ends
/// it, and the reply to the create is followed by nothing but the probe.
pub proof fn lemma_put_takes_at_most_two_requests(state: PutView, status: u16, body: Seq<char>)
    ensures
        state is AwaitingProbe ==> put_follows(state, status, body) is Done,
        put_follows(state, status, body) matches ProgressView::Continue { state: next, call } ==> {
            &&& state is AwaitingCreate
            &&& status == UNPROCESSABLE_ENTITY
            &&& next is AwaitingProbe
            &&& call is Probe
        },
{
}

/// A create refused as unprocessable, followed by a probe that finds the
/// app under the organization asked for, ends in that app, as probed, and
/// in no error.
pub proof fn lemma_same_org_converges(
    org_slug: Seq<char>,
    app_name: Seq<char>,
    create_body: Seq<char>,
    probe_status: u16,
    probe_body: Seq<char>,
    id: Seq<char>,
    name: Seq<char>,
)
    requires
        is_success(probe_status),
    ensures
        after_create(org_slug, app_name, UNPROCESSABLE_ENTITY, create_body, None)
            == (PutProgress::Continue {
            state: PutView::AwaitingProbe { org_slug, app_name, create_body },
            call: AppCallView::Probe,
        }),
        after_probe(
            org_slug,
            app_name,
            create_body,
            probe_status,
            probe_body,
            Some(id),
            Some(name),
            Some(org_slug),
        ) == Ok::<AppView, ErrorView>(AppView { name, id }),
{
}

/// A probe that finds the app under another organization ends in the
/// mismatch, which names the app and both organizations; no app comes
/// back.
pub proof fn lemma_cross_org_is_rejected(
    org_slug: Seq<char>,
    app_name: Seq<char>,
    create_body: Seq<char>,
    probe_status: u16,
    probe_body: Seq<char>,
    id: Seq<char>,
    name: Seq<char>,
    owner: Seq<char>,
)
    requires
        is_success(probe_status),
        owner != org_slug,
    ensures
        after_probe(
            org_slug,
            app_name,
            create_body,
            probe_status,
            probe_body,
            Some(id),
            Some(name),
            Some(owner),
        ) == Err::<AppView, ErrorView>(
            ErrorView::SemanticMismatch { resource: app_name, actual: owner, requested: org_slug },
        ),
{
}

/// A probe that fails never replaces the failure of the create: whatever
/// the probe's status and body, the error carries the create's body.
pub proof fn lemma_failed_probe_reports_the_create(
    org_slug: Seq<char>,
    app_name: Seq<char>,
    create_body: Seq<char>,
    probe_status: u16,
    probe_body: Seq<char>,
    id: Option<Seq<char>>,
    name: Option<Seq<char>>,
    owner: Option<Seq<char>>,
)
    requires
        !is_success(probe_status),
    ensures
        after_probe(org_slug, app_name, create_body, probe_status, probe_body, id, name, owner)
            == Err::<AppView, ErrorView>(
            ErrorView::ConflictUnresolvable { status: UNPROCESSABLE_ENTITY, body: create_body },
        ),
{
}

} // verus!
