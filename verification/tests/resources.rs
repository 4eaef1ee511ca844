use activity_reconcile::error::ActivityError;
use activity_reconcile::fly::secrets::{delete_secret, list_secrets, put_secret};
use activity_reconcile::fly::{authorization, build_app_url, secrets, volumes, API_BASE_URL};
use activity_reconcile::http::Method;
use activity_reconcile::slug::{AppName, SecretKey, VolumeId};

fn s(t: &str) -> String {
    t.to_string()
}

#[test]
fn authorization_needs_a_token() {
    assert_eq!(Ok(s("Bearer FlyV1 abc")), authorization(Some("FlyV1 abc")));
    assert_eq!(Ok(s("Bearer ")), authorization(Some("")));
    match authorization(None) {
        Err(e @ ActivityError::Configuration) => {
            assert_eq!("cannot obtain `FLY_API_TOKEN`", e.message())
        }
        other => panic!("unexpected outcome {other:?}"),
    }
}

#[test]
fn urls_start_at_the_base() {
    assert_eq!("https://api.machines.dev/v1", API_BASE_URL);
    let app = AppName::new(s("my-app")).unwrap();
    assert_eq!("https://api.machines.dev/v1/apps/my-app", build_app_url(&app, ""));
    assert_eq!("https://api.machines.dev/v1/apps/my-app/x", build_app_url(&app, "/x"));
}

#[test]
fn volume_requests() {
    let app = AppName::new(s("my-app")).unwrap();
    let id = VolumeId::new(s("vol-4d8f")).unwrap();
    let base = "https://api.machines.dev/v1/apps/my-app/volumes";
    let r = volumes::list_request(&app);
    assert_eq!((Method::Get, s(base)), (r.method, r.url));
    let r = volumes::create_request(&app);
    assert_eq!((Method::Post, s(base)), (r.method, r.url));
    let r = volumes::get_request(&app, &id);
    assert_eq!((Method::Get, format!("{base}/vol-4d8f")), (r.method, r.url));
    let r = volumes::delete_request(&app, &id);
    assert_eq!((Method::Delete, format!("{base}/vol-4d8f")), (r.method, r.url));
    let r = volumes::extend_request(&app, &id);
    assert_eq!((Method::Put, format!("{base}/vol-4d8f/extend")), (r.method, r.url));
}

#[test]
fn secret_requests() {
    let app = AppName::new(s("my-app")).unwrap();
    let key = SecretKey::new(s("DB-URL")).unwrap();
    let base = "https://api.machines.dev/v1/apps/my-app/secrets";
    let r = secrets::list_request(&app);
    assert_eq!((Method::Get, s(base)), (r.method, r.url));
    let r = secrets::delete_request(&app, &key);
    assert_eq!((Method::Delete, format!("{base}/DB-URL")), (r.method, r.url));
    let r = secrets::put_request(&app, &key);
    assert_eq!((Method::Post, format!("{base}/DB-URL")), (r.method, r.url));
}

#[test]
fn secret_failures_name_app_and_secret() {
    let app = AppName::new(s("my-app")).unwrap();
    let key = SecretKey::new(s("DB-URL")).unwrap();
    assert_eq!(Ok(()), list_secrets(&app, 200, "{\"secrets\": []}"));
    let refused = list_secrets(&app, 404, "no app").unwrap_err();
    assert_eq!(
        ActivityError::Refused { what: s("list secrets for app 'my-app'"), status: 404, body: s("no app") },
        refused
    );
    assert_eq!("failed to list secrets for app 'my-app' with status 404: no app", refused.message());

    assert_eq!(Ok(()), delete_secret(&app, &key, 204, ""));
    assert_eq!(
        "failed to delete secret 'DB-URL' for app 'my-app' with status 500: boom",
        delete_secret(&app, &key, 500, "boom").unwrap_err().message()
    );
    assert_eq!(Ok(()), put_secret(&app, &key, 201, ""));
    assert_eq!(
        "failed to put secret 'DB-URL' for app 'my-app' with status 422: ",
        put_secret(&app, &key, 422, "").unwrap_err().message()
    );
}
