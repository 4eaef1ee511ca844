use activity_reconcile::error::ActivityError;
use activity_reconcile::fly::apps::{
    advance_put, begin_put, decide_app, decide_create, decide_probe, delete_request, get_request,
    list_request, put, read_app, request_for, resolve_get, resolve_list, App, AppCall,
    CreateAppRequest, Put,
};
use activity_reconcile::http::Method;
use activity_reconcile::protocol::Progress;
use activity_reconcile::slug::{AppName, OrgSlug};

fn s(t: &str) -> String {
    t.to_string()
}

fn org(t: &str) -> OrgSlug {
    OrgSlug::new(s(t)).unwrap()
}

fn app(t: &str) -> AppName {
    AppName::new(s(t)).unwrap()
}

const PROBE: &str = r#"{"id": "z4k7g5", "name": "shop", "machine_count": 0,
    "organization": {"name": "Personal", "slug": "personal"}, "status": "pending"}"#;

fn refused() -> Put {
    let (state, call) = begin_put(org("personal"), app("shop"));
    assert_eq!(AppCall::Create(CreateAppRequest { app_name: s("shop"), org_slug: s("personal") }), call);
    match advance_put(state, 422, "name taken") {
        Progress::Continue { state, call } => {
            assert_eq!(AppCall::Probe, call);
            state
        }
        other => panic!("unexpected step {other:?}"),
    }
}

#[test]
fn create_success_returns_the_new_app() {
    let (state, _) = begin_put(org("personal"), app("shop"));
    assert_eq!(
        Progress::Done(Ok(App { name: s("shop"), id: s("z4k7g5") })),
        advance_put(state, 201, "{\"id\": \"z4k7g5\", \"created_at\": 1757505784914}")
    );
}

#[test]
fn create_success_without_an_id_is_a_decode_error() {
    let (state, _) = begin_put(org("personal"), app("shop"));
    assert_eq!(
        Progress::Done(Err(ActivityError::Decode { body: s("{\"name\": \"shop\"}") })),
        advance_put(state, 200, "{\"name\": \"shop\"}")
    );
}

#[test]
fn create_with_another_status_fails_at_once() {
    for status in [400u16, 401, 404, 409, 500] {
        let (state, _) = begin_put(org("personal"), app("shop"));
        assert_eq!(
            Progress::Done(Err(ActivityError::Remote { status, body: s("no") })),
            advance_put(state, status, "no")
        );
    }
}

#[test]
fn same_org_converges_on_the_probed_app() {
    assert_eq!(
        Progress::Done(Ok(App { name: s("shop"), id: s("z4k7g5") })),
        advance_put(refused(), 200, PROBE)
    );
}

#[test]
fn the_probed_app_is_returned_as_probed() {
    let body = r#"{"id": "i-1", "name": "Shop", "organization": {"slug": "personal"}}"#;
    assert_eq!(
        Progress::Done(Ok(App { name: s("Shop"), id: s("i-1") })),
        advance_put(refused(), 200, body)
    );
}

#[test]
fn cross_org_is_rejected_and_names_both() {
    let body = r#"{"id": "i-1", "name": "shop", "organization": {"slug": "acme"}}"#;
    match advance_put(refused(), 200, body) {
        Progress::Done(Err(e)) => {
            assert_eq!(
                ActivityError::SemanticMismatch {
                    resource: s("shop"),
                    actual: s("acme"),
                    requested: s("personal"),
                },
                e
            );
            let text = e.message();
            assert!(text.contains("'acme'") && text.contains("'personal'") && text.contains("'shop'"));
            assert_eq!(
                "app 'shop' already exists but belongs to organization 'acme', not the requested 'personal'.",
                text
            );
        }
        other => panic!("unexpected step {other:?}"),
    }
}

#[test]
fn org_slugs_are_compared_exactly() {
    let body = r#"{"id": "i-1", "name": "shop", "organization": {"slug": "Personal"}}"#;
    assert!(matches!(
        advance_put(refused(), 200, body),
        Progress::Done(Err(ActivityError::SemanticMismatch { .. }))
    ));
}

#[test]
fn a_failed_probe_reports_the_create() {
    for status in [404u16, 500, 401, 422] {
        assert_eq!(
            Progress::Done(Err(ActivityError::ConflictUnresolvable {
                status: 422,
                body: s("name taken"),
            })),
            advance_put(refused(), status, PROBE)
        );
    }
    let error = ActivityError::ConflictUnresolvable { status: 422, body: s("name taken") };
    assert_eq!("failed with status 422: name taken", error.message());
}

#[test]
fn a_probe_of_the_wrong_shape_is_a_decode_error() {
    for body in [
        "",
        "{}",
        r#"{"id": "i", "name": "shop"}"#,
        r#"{"id": "i", "name": "shop", "organization": "personal"}"#,
        r#"{"id": "i", "organization": {"slug": "personal"}}"#,
        r#"{"name": "shop", "organization": {"slug": "personal"}}"#,
        r#"{"id": 5, "name": "shop", "organization": {"slug": "personal"}}"#,
    ] {
        assert_eq!(
            Progress::Done(Err(ActivityError::Decode { body: s(body) })),
            advance_put(refused(), 200, body),
            "{body:?}"
        );
    }
}

#[test]
fn decisions_on_members_already_read() {
    assert_eq!(
        Progress::Done(Ok(App { name: s("shop"), id: s("n") })),
        decide_create(org("o"), app("shop"), 200, "", Some(s("n")))
    );
    assert!(matches!(
        decide_create(org("o"), app("shop"), 422, "b", Some(s("n"))),
        Progress::Continue { call: AppCall::Probe, .. }
    ));
    assert_eq!(
        Ok(App { name: s("n"), id: s("i") }),
        decide_probe(&org("o"), &app("shop"), s("cb"), 200, "pb", Some(s("i")), Some(s("n")), Some(s("o")))
    );
    assert_eq!(
        Err(ActivityError::ConflictUnresolvable { status: 422, body: s("cb") }),
        decide_probe(&org("o"), &app("shop"), s("cb"), 404, "pb", Some(s("i")), Some(s("n")), Some(s("o")))
    );
    assert_eq!(
        Err(ActivityError::Decode { body: s("pb") }),
        decide_probe(&org("o"), &app("shop"), s("cb"), 200, "pb", None, Some(s("n")), Some(s("o")))
    );
}

#[test]
fn put_checks_both_identifiers_before_anything_is_sent() {
    match put(s("personal"), s("shop")) {
        Ok((name, state, call)) => {
            assert_eq!("shop", name.as_ref());
            assert!(matches!(state, Put::AwaitingCreate { .. }));
            assert_eq!(
                AppCall::Create(CreateAppRequest { app_name: s("shop"), org_slug: s("personal") }),
                call
            );
        }
        Err(e) => panic!("unexpected error {e:?}"),
    }
    assert_eq!(Some(ActivityError::Validation), put(s("per sonal"), s("shop")).err());
    assert_eq!(Some(ActivityError::Validation), put(s("personal"), s("shop/../x")).err());
    assert_eq!(Some(ActivityError::Validation), put(s("?"), s("#")).err());
}

#[test]
fn app_requests() {
    let name = app("shop");
    let r = request_for(&name, &AppCall::Create(CreateAppRequest { app_name: s("shop"), org_slug: s("o") }));
    assert_eq!((Method::Post, s("https://api.machines.dev/v1/apps")), (r.method, r.url));
    let r = request_for(&name, &AppCall::Probe);
    assert_eq!((Method::Get, s("https://api.machines.dev/v1/apps/shop")), (r.method, r.url));
    let r = get_request(&name);
    assert_eq!((Method::Get, s("https://api.machines.dev/v1/apps/shop")), (r.method, r.url));
    let r = list_request(&org("personal"));
    assert_eq!(
        (Method::Get, s("https://api.machines.dev/v1/apps?org_slug=personal")),
        (r.method, r.url)
    );
    let r = delete_request(&name, false);
    assert_eq!((Method::Delete, s("https://api.machines.dev/v1/apps/shop")), (r.method, r.url));
    let r = delete_request(&name, true);
    assert_eq!(
        (Method::Delete, s("https://api.machines.dev/v1/apps/shop?force=true")),
        (r.method, r.url)
    );
}

#[test]
fn reading_one_app() {
    assert_eq!(Ok(Some(App { name: s("shop"), id: s("z4k7g5") })), resolve_get(200, PROBE));
    assert_eq!(Ok(None), resolve_get(404, PROBE));
    assert_eq!(Err(ActivityError::Remote { status: 500, body: s("x") }), resolve_get(500, "x"));
    assert_eq!(Err(ActivityError::Decode { body: s("{}") }), resolve_get(200, "{}"));
    assert_eq!(Some(App { name: s("a"), id: s("b") }), read_app("{\"id\": \"b\", \"name\": \"a\"}"));
    assert_eq!(None, read_app("{\"id\": \"b\"}"));
    assert_eq!(None, decide_app(Some(s("a")), None));
    assert_eq!(None, decide_app(None, Some(s("b"))));
}

#[test]
fn listing_apps() {
    let body = r#"{"total_apps": 2, "apps": [
        {"id": "1", "name": "shop", "machine_count": 1, "network": "default"},
        {"id": "2", "name": "blog"}
    ]}"#;
    assert_eq!(
        Ok(vec![App { name: s("shop"), id: s("1") }, App { name: s("blog"), id: s("2") }]),
        resolve_list(200, body)
    );
    assert_eq!(Ok(vec![]), resolve_list(200, "{\"apps\": []}"));
    assert_eq!(Err(ActivityError::Decode { body: s("{}") }), resolve_list(200, "{}"));
    let broken = "{\"apps\": [{\"id\": \"1\", \"name\": \"shop\"}, {\"id\": \"2\"}]}";
    assert_eq!(Err(ActivityError::Decode { body: s(broken) }), resolve_list(200, broken));
    assert_eq!(Err(ActivityError::Remote { status: 401, body: s(body) }), resolve_list(401, body));
}
