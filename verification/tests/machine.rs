use activity_reconcile::error::ActivityError;
use activity_reconcile::http::Method;
use activity_reconcile::fly::machine::{
    change_machine, create_request, decide_create, decide_update, delete_request,
    exec_check_success, exec_request, get_request, list_request, resolve_create, resolve_update,
    update_request, ExecResponse, MachineChange, ResponseErrorSer,
};
use activity_reconcile::slug::{AppName, MachineId};

const CONFLICT_BODY: &str = "{\"error\": \"already_exists: unique machine name violation, machine ID 32876249a30918 already exists with name \\\"foo\\\"\"}";

fn error_of(message: &str) -> ResponseErrorSer {
    ResponseErrorSer { error: message.to_string() }
}

#[test]
fn get_machine_id_on_creation_conflict_should_work() {
    let value: serde_json::Value = serde_json::from_str(CONFLICT_BODY).unwrap();
    let response = error_of(value["error"].as_str().unwrap());
    let id = response.get_machine_id_on_creation_conflict().unwrap();
    assert_eq!("32876249a30918", id);
}

#[test]
fn machine_get_machine_id_on_creation_conflict_should_work() {
    let response = error_of(
        "already_exists: unique machine name violation, machine ID 32876249a30918 already exists with name \"foo\"",
    );
    let id = response.get_machine_id_on_creation_conflict().unwrap();
    assert_eq!("32876249a30918", id);
}

#[test]
fn conflict_id_needs_the_prefix_at_offset_zero() {
    let wrapped = error_of(
        "error: already_exists: unique machine name violation, machine ID 32876249a30918 already exists with name \"foo\"",
    );
    assert_eq!(None, wrapped.get_machine_id_on_creation_conflict());
    let spaced = error_of(
        " already_exists: unique machine name violation, machine ID 1 already exists with name \"foo\"",
    );
    assert_eq!(None, spaced.get_machine_id_on_creation_conflict());
}

#[test]
fn conflict_id_needs_the_suffix() {
    let cut = error_of("already_exists: unique machine name violation, machine ID 32876249a30918");
    assert_eq!(None, cut.get_machine_id_on_creation_conflict());
    let other = error_of(
        "already_exists: unique machine name violation, machine ID 32876249a30918 is taken",
    );
    assert_eq!(None, other.get_machine_id_on_creation_conflict());
}

#[test]
fn conflict_id_of_odd_messages() {
    assert_eq!(None, error_of("").get_machine_id_on_creation_conflict());
    assert_eq!(
        None,
        error_of("already_exists: unique machine name violation, machine ID ")
            .get_machine_id_on_creation_conflict()
    );
    let empty_id = error_of(
        "already_exists: unique machine name violation, machine ID  already exists with name ",
    );
    assert_eq!(Some(""), empty_id.get_machine_id_on_creation_conflict());
    let twice = error_of(
        "already_exists: unique machine name violation, machine ID a already exists with name b already exists with name c",
    );
    assert_eq!(Some("a"), twice.get_machine_id_on_creation_conflict());
    let unicode = error_of(
        "already_exists: unique machine name violation, machine ID дом already exists with name \"x\"",
    );
    assert_eq!(Some("дом"), unicode.get_machine_id_on_creation_conflict());
}

#[test]
fn conflict_id_stops_at_a_suffix_that_begins_inside_the_id() {
    let early = error_of(
        "already_exists: unique machine name violation, machine ID x already exists with name already exists with name \"foo\"",
    );
    assert_eq!(Some("x"), early.get_machine_id_on_creation_conflict());
}

#[test]
fn create_success_returns_the_new_id() {
    let id = resolve_create(200, "{\"id\": \"080155df097248\", \"name\": \"machine\"}").unwrap();
    assert_eq!("080155df097248", id);
    let id = resolve_create(201, "{\"id\": \"1\"}").unwrap();
    assert_eq!("1", id);
}

#[test]
fn create_success_with_a_malformed_body_is_a_decode_error() {
    for body in ["", "{}", "{\"id\": 7}", "not json", "{\"id\": null}"] {
        match resolve_create(200, body) {
            Err(ActivityError::Decode { body: reported }) => assert_eq!(body, reported),
            other => panic!("unexpected outcome {other:?}"),
        }
    }
}

#[test]
fn create_conflict_returns_the_existing_id_verbatim() {
    let id = resolve_create(409, CONFLICT_BODY).unwrap();
    assert_eq!("32876249a30918", id);
}

#[test]
fn create_conflict_with_an_unknown_message_is_unresolvable() {
    let body = "{\"error\": \"machine name taken\"}";
    match resolve_create(409, body) {
        Err(ActivityError::ConflictUnresolvable { status, body: reported }) => {
            assert_eq!(409, status);
            assert_eq!(body, reported);
        }
        other => panic!("unexpected outcome {other:?}"),
    }
}

#[test]
fn create_conflict_with_a_malformed_body_is_a_decode_error() {
    match resolve_create(409, "<html>") {
        Err(ActivityError::Decode { body }) => assert_eq!("<html>", body),
        other => panic!("unexpected outcome {other:?}"),
    }
}

#[test]
fn create_other_status_embeds_status_and_body() {
    match resolve_create(500, "boom") {
        Err(e @ ActivityError::Remote { .. }) => {
            assert_eq!("failed with status 500: boom", e.message());
        }
        other => panic!("unexpected outcome {other:?}"),
    }
    // A 422 has no meaning for machines, and a 404 neither.
    assert!(matches!(resolve_create(422, CONFLICT_BODY), Err(ActivityError::Remote { status: 422, .. })));
    assert!(matches!(resolve_create(404, ""), Err(ActivityError::Remote { status: 404, .. })));
}

#[test]
fn decide_create_ignores_what_the_status_does_not_call_for() {
    let id = decide_create(200, "b", Some("new".to_string()), Some("x".to_string())).unwrap();
    assert_eq!("new", id);
    assert!(matches!(
        decide_create(409, "b", Some("new".to_string()), None),
        Err(ActivityError::Decode { .. })
    ));
}

#[test]
fn update_accepts_only_the_addressed_machine() {
    assert!(resolve_update(200, "{\"id\": \"abc\"}", "abc").is_ok());
    match resolve_update(200, "{\"id\": \"abd\"}", "abc") {
        Err(e @ ActivityError::UnexpectedId { .. }) => {
            assert_eq!("unexpected id returned, expected abc got abd", e.message());
        }
        other => panic!("unexpected outcome {other:?}"),
    }
    assert!(matches!(resolve_update(200, "{}", "abc"), Err(ActivityError::Decode { .. })));
    assert!(matches!(
        resolve_update(409, "{\"id\": \"abc\"}", "abc"),
        Err(ActivityError::Remote { status: 409, .. })
    ));
    assert!(decide_update(204, "", Some("m".to_string()), "m").is_ok());
}

#[test]
fn machine_requests() {
    let app = AppName::new("my-app".to_string()).unwrap();
    let id = MachineId::new("080155df097248".to_string()).unwrap();
    let base = "https://api.machines.dev/v1/apps/my-app/machines";

    let r = list_request(&app);
    assert_eq!((Method::Get, base.to_string()), (r.method, r.url));
    let r = create_request(&app);
    assert_eq!((Method::Post, base.to_string()), (r.method, r.url));
    let r = get_request(&app, &id);
    assert_eq!((Method::Get, format!("{base}/080155df097248")), (r.method, r.url));
    let r = update_request(&app, &id);
    assert_eq!((Method::Post, format!("{base}/080155df097248")), (r.method, r.url));
    let r = exec_request(&app, &id);
    assert_eq!((Method::Post, format!("{base}/080155df097248/exec")), (r.method, r.url));
    let r = delete_request(&app, &id, true);
    assert_eq!((Method::Delete, format!("{base}/080155df097248?force=true")), (r.method, r.url));
    let r = delete_request(&app, &id, false);
    assert_eq!((Method::Delete, format!("{base}/080155df097248?force=false")), (r.method, r.url));
    for (change, suffix) in [
        (MachineChange::Stop, "stop"),
        (MachineChange::Suspend, "suspend"),
        (MachineChange::Start, "start"),
        (MachineChange::Restart, "restart"),
    ] {
        let r = change_machine(&app, &id, change);
        assert_eq!((Method::Post, format!("{base}/080155df097248/{suffix}")), (r.method, r.url));
    }
}

fn response(exit_code: Option<i32>) -> ExecResponse {
    ExecResponse {
        exit_code,
        exit_signal: None,
        stderr: Some("warn".to_string()),
        stdout: None,
    }
}

#[test]
fn exec_check_success_accepts_exit_zero_only() {
    let accepted = exec_check_success(response(Some(0))).unwrap();
    assert_eq!(Some(0), accepted.exit_code);
    assert_eq!(Some("warn".to_string()), accepted.stderr);

    match exec_check_success(response(Some(-2))) {
        Err(e) => {
            assert_eq!("non-successful exit status - Some(-2)", e.message());
            match e {
                ActivityError::NonZeroExit { exit_code, stderr, stdout } => {
                    assert_eq!(Some(-2), exit_code);
                    assert_eq!("warn", stderr);
                    assert_eq!("", stdout);
                }
                other => panic!("unexpected error {other:?}"),
            }
        }
        Ok(_) => panic!("exit -2 was accepted"),
    }
    match exec_check_success(response(None)) {
        Err(e) => assert_eq!("non-successful exit status - None", e.message()),
        Ok(_) => panic!("no exit status was accepted"),
    }
    assert!(exec_check_success(response(Some(1))).is_err());
    assert!(exec_check_success(response(Some(i32::MIN))).is_err());
}
