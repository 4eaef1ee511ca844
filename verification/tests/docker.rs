use activity_reconcile::docker::containers::{
    advance_run, advance_start, decide_container, decide_run, decide_summary, inspect_command, inspect_container, list_command,
    list_containers, read_container, read_summary, rm_container, run_command, run_container,
    start_container, stop_container, ContainerConfig, ContainerInfo, ContainerSummary, Mount,
    PortMapping, Run, Start,
};
use activity_reconcile::docker::networks::{create_network, prune_networks, rm_network};
use activity_reconcile::docker::volumes::{create_volume, exists_volume, rm_volume};
use activity_reconcile::docker::{
    advance_guarded, check_exists, check_exists_command, error_mentions, exec, After, Command,
    Guarded, GuardedState,
};
use activity_reconcile::error::ActivityError;
use activity_reconcile::protocol::Progress;

fn s(t: &str) -> String {
    t.to_string()
}

fn args(items: &[&str]) -> Command {
    Command { args: items.iter().map(|t| t.to_string()).collect() }
}

fn failed(stderr: &str) -> ActivityError {
    ActivityError::CommandFailed { exit_code: Some(1), stderr: s(stderr), stdout: s("") }
}

#[test]
fn exec_accepts_exit_zero_only_and_trims() {
    assert_eq!(Ok(s("4f2a9c")), exec(Some(0), "4f2a9c\n", "warning: x\n"));
    assert_eq!(Ok(s("")), exec(Some(0), " \n", ""));
    assert_eq!(
        Err(ActivityError::CommandFailed { exit_code: Some(125), stderr: s("bad"), stdout: s("out") }),
        exec(Some(125), " out \n", "\tbad\r\n")
    );
    assert_eq!(
        Err(ActivityError::CommandFailed { exit_code: None, stderr: s(""), stdout: s("") }),
        exec(None, "", "")
    );
    assert!(exec(Some(-1), "", "").is_err());
}

#[test]
fn check_exists_reads_the_inspection() {
    assert_eq!(args(&["inspect", "--type", "volume", "data"]), check_exists_command("volume", "data"));
    assert_eq!(Ok(true), check_exists(Ok(s("[{}]"))));
    assert_eq!(Ok(false), check_exists(Err(failed("Error: No such object: data"))));
    assert_eq!(Ok(false), check_exists(Err(failed("Error response from daemon: No such container: x"))));
    let stdout_only =
        ActivityError::CommandFailed { exit_code: Some(1), stderr: s(""), stdout: s("No such volume") };
    assert_eq!(Ok(false), check_exists(Err(stdout_only)));
    assert_eq!(Ok(false), check_exists(Err(ActivityError::Transport { message: s("No such file") })));
    let denied = failed("permission denied while trying to connect to the Docker daemon socket");
    assert_eq!(Err(denied.clone()), check_exists(Err(denied)));
    assert_eq!(Err(failed("no such object")), check_exists(Err(failed("no such object"))));
}

#[test]
fn error_mentions_looks_at_the_whole_text() {
    assert!(error_mentions(&failed("x"), "Docker command failed"));
    assert!(error_mentions(&failed("x"), "Exit Some(1)"));
    assert!(error_mentions(&failed("is already in use"), "already"));
    assert!(!error_mentions(&failed("x"), "Conflict"));
}

fn config() -> ContainerConfig {
    ContainerConfig {
        image: s("nginx:1.27"),
        env: vec![(s("A"), s("1")), (s("B"), s("two words"))],
        ports: vec![
            PortMapping { host_port: 8080, container_port: 80, protocol: s("tcp") },
            PortMapping { host_port: 53, container_port: 5353, protocol: s("udp") },
        ],
        mounts: vec![
            Mount { source: s("data"), target: s("/var/lib/data"), readonly: false },
            Mount { source: s("/etc/conf"), target: s("/conf"), readonly: true },
        ],
        network: Some(s("backend")),
        cmd: Some(vec![s("nginx"), s("-g"), s("daemon off;")]),
    }
}

#[test]
fn run_command_orders_its_arguments() {
    let expected = args(&[
        "run", "-d", "--name", "web",
        "-e", "A=1", "-e", "B=two words",
        "-p", "8080:80/tcp", "-p", "53:5353/udp",
        "-v", "data:/var/lib/data:rw", "-v", "/etc/conf:/conf:ro",
        "--network", "backend",
        "nginx:1.27",
        "nginx", "-g", "daemon off;",
    ]);
    assert_eq!(expected, run_command("web", &config()));
}

#[test]
fn run_command_of_a_bare_image() {
    let bare = ContainerConfig {
        image: s("alpine"),
        env: vec![],
        ports: vec![],
        mounts: vec![],
        network: None,
        cmd: None,
    };
    assert_eq!(args(&["run", "-d", "--name", "c", "alpine"]), run_command("c", &bare));
    let empty_cmd = ContainerConfig { cmd: Some(vec![]), ..bare };
    assert_eq!(args(&["run", "-d", "--name", "c", "alpine"]), run_command("c", &empty_cmd));
}

#[test]
fn run_succeeds_with_the_new_id() {
    let (state, command) = run_container("web", &config());
    assert_eq!(run_command("web", &config()), command);
    assert_eq!(Progress::Done(Ok(s("4f2a9c"))), advance_run(state, Ok(s("4f2a9c"))));
}

const INSPECTED: &str = r#"[{"Id": "4f2a9c", "Name": "/web", "State": {"Status": "running", "Running": true}}]"#;
const EXITED: &str = r#"[{"Id": "4f2a9c", "State": {"Status": "exited"}}]"#;

fn taken() -> (Run, ActivityError) {
    let failure = failed(
        "docker: Error response from daemon: Conflict. The container name \"/web\" is already in use by container \"4f2a9c\".",
    );
    let (state, _) = run_container("web", &config());
    match advance_run(state, Err(failure.clone())) {
        Progress::Continue { state, call } => {
            assert_eq!(args(&["inspect", "web"]), call);
            (state, failure)
        }
        other => panic!("unexpected step {other:?}"),
    }
}

#[test]
fn run_of_a_taken_name_returns_the_running_container() {
    let (state, _) = taken();
    assert_eq!(Progress::Done(Ok(s("4f2a9c"))), advance_run(state, Ok(s(INSPECTED))));
}

#[test]
fn run_of_a_taken_name_refuses_a_container_that_does_not_run() {
    let (state, _) = taken();
    match advance_run(state, Ok(s(EXITED))) {
        Progress::Done(Err(e)) => {
            assert_eq!(ActivityError::ContainerNotRunning { name: s("web"), state: s("exited") }, e);
            assert_eq!(
                "Container 'web' exists but is in state 'exited'. Use 'start' to resume or 'rm' to replace.",
                e.message()
            );
        }
        other => panic!("unexpected step {other:?}"),
    }
}

#[test]
fn run_of_a_taken_name_keeps_its_failure_where_nothing_is_found() {
    let (state, failure) = taken();
    assert_eq!(Progress::Done(Err(failure.clone())), advance_run(state, Ok(s("[]"))));
    let (state, failure) = taken();
    assert_eq!(Progress::Done(Err(failure)), advance_run(state, Err(failed("No such object"))));
    let (state, _) = taken();
    assert_eq!(
        Progress::Done(Err(ActivityError::Decode { body: s("{}") })),
        advance_run(state, Ok(s("{}")))
    );
}

#[test]
fn run_with_another_failure_ends_at_once() {
    let (state, _) = run_container("web", &config());
    let failure = failed("Unable to find image 'nginx:9' locally");
    assert_eq!(Progress::Done(Err(failure.clone())), advance_run(state, Err(failure)));
    let (state, _) = run_container("web", &config());
    let only_one_word = failed("name is already in use");
    assert!(matches!(advance_run(state, Err(only_one_word)), Progress::Continue { .. }));
    assert_eq!(
        Err(failed("x")),
        decide_run(s("web"), failed("x"), Ok(None))
    );
}

#[test]
fn inspection_outcomes() {
    assert_eq!(args(&["inspect", "web"]), inspect_command("web"));
    assert_eq!(
        Ok(Some(ContainerInfo { id: s("4f2a9c"), state: s("running") })),
        inspect_container(Ok(s(INSPECTED)))
    );
    assert_eq!(Ok(None), inspect_container(Ok(s("[]"))));
    assert_eq!(Ok(None), inspect_container(Err(failed("anything"))));
    let two = r#"[{"Id": "1", "State": {"Status": "created"}}, {"Id": "2", "State": {"Status": "running"}}]"#;
    assert_eq!(
        Ok(Some(ContainerInfo { id: s("1"), state: s("created") })),
        inspect_container(Ok(s(two)))
    );
    for output in [
        "",
        "{}",
        "null",
        r#"[{"Id": "1"}]"#,
        r#"[{"Id": "1", "State": "running"}]"#,
        r#"[{"Id": "1", "State": {"Status": "created"}}, {"Id": "2"}]"#,
    ] {
        assert_eq!(
            Err(ActivityError::Decode { body: s(output) }),
            inspect_container(Ok(s(output))),
            "{output:?}"
        );
    }
    assert_eq!(None, read_container("{}"));
    assert_eq!(
        Some(ContainerInfo { id: s("1"), state: s("paused") }),
        decide_container(Some(s("1")), Some(s("paused")))
    );
    assert_eq!(None, decide_container(Some(s("1")), None));
    assert_eq!(None, decide_container(None, Some(s("paused"))));
}

#[test]
fn start_leaves_a_running_container_alone() {
    let (state, command) = start_container("web");
    assert_eq!(args(&["inspect", "web"]), command);
    assert_eq!(Progress::Done(Ok(())), advance_start(state, Ok(s(INSPECTED))));
}

#[test]
fn start_starts_a_stopped_container() {
    let (state, _) = start_container("web");
    match advance_start(state, Ok(s(EXITED))) {
        Progress::Continue { state, call } => {
            assert_eq!(args(&["start", "web"]), call);
            assert_eq!(Start::AwaitingStart, state);
            assert_eq!(Progress::Done(Ok(())), advance_start(state, Ok(s("web"))));
        }
        other => panic!("unexpected step {other:?}"),
    }
    assert_eq!(
        Progress::Done(Err(failed("cannot start"))),
        advance_start(Start::AwaitingStart, Err(failed("cannot start")))
    );
}

#[test]
fn start_of_a_missing_container_is_an_error() {
    let (state, _) = start_container("web");
    match advance_start(state, Err(failed("Error: No such object: web"))) {
        Progress::Done(Err(e)) => {
            assert_eq!(ActivityError::ContainerNotFound { name: s("web") }, e);
            assert_eq!("Container 'web' not found", e.message());
        }
        other => panic!("unexpected step {other:?}"),
    }
    let (state, _) = start_container("web");
    assert_eq!(
        Progress::Done(Err(ActivityError::ContainerNotFound { name: s("web") })),
        advance_start(state, Ok(s("[]")))
    );
    let (state, _) = start_container("web");
    assert_eq!(
        Progress::Done(Err(ActivityError::Decode { body: s("oops") })),
        advance_start(state, Ok(s("oops")))
    );
}

fn check_then(state: GuardedState, exists: bool) -> Progress<GuardedState, Command, String> {
    let inspection = if exists { Ok(s("[{}]")) } else { Err(failed("Error: No such object: x")) };
    advance_guarded(state, inspection)
}

fn acts(start: (GuardedState, Command), exists: bool, action: &[&str]) -> GuardedState {
    match check_then(start.0, exists) {
        Progress::Continue { state, call } => {
            assert_eq!(args(action), call);
            state
        }
        other => panic!("unexpected step {other:?}"),
    }
}

#[test]
fn stop_forgives_a_failed_stop() {
    let start = stop_container("web");
    assert_eq!(args(&["inspect", "--type", "container", "web"]), start.1);
    assert_eq!(Progress::Done(Ok(s(""))), check_then(start.0, false));

    let state = acts(stop_container("web"), true, &["stop", "web"]);
    assert_eq!(Progress::Done(Ok(s(""))), advance_guarded(state, Err(failed("cannot stop"))));
    let state = acts(stop_container("web"), true, &["stop", "web"]);
    assert_eq!(Progress::Done(Ok(s(""))), advance_guarded(state, Ok(s("web"))));
}

#[test]
fn rm_removes_what_exists() {
    assert_eq!(Progress::Done(Ok(s(""))), check_then(rm_container("web", true).0, false));
    let state = acts(rm_container("web", false), true, &["rm", "web"]);
    assert_eq!(Progress::Done(Ok(s(""))), advance_guarded(state, Ok(s("web"))));
    let state = acts(rm_container("web", true), true, &["rm", "-f", "web"]);
    assert_eq!(
        Progress::Done(Err(failed("in use"))),
        advance_guarded(state, Err(failed("in use")))
    );
}

#[test]
fn a_failed_check_ends_a_guarded_operation() {
    let denied = failed("permission denied");
    assert_eq!(
        Progress::Done(Err(denied.clone())),
        advance_guarded(rm_container("web", false).0, Err(denied))
    );
}

#[test]
fn networks() {
    let start = create_network("backend", Some("bridge"));
    assert_eq!(args(&["inspect", "--type", "network", "backend"]), start.1);
    assert_eq!(Progress::Done(Ok(s("backend"))), check_then(start.0, true));

    let state =
        acts(create_network("backend", Some("bridge")), false, &["network", "create", "--driver", "bridge", "backend"]);
    assert_eq!(Progress::Done(Ok(s("9f3c"))), advance_guarded(state, Ok(s("9f3c"))));
    let state = acts(create_network("backend", None), false, &["network", "create", "backend"]);
    assert_eq!(Progress::Done(Err(failed("pool"))), advance_guarded(state, Err(failed("pool"))));

    assert_eq!(Progress::Done(Ok(s(""))), check_then(rm_network("backend").0, false));
    let state = acts(rm_network("backend"), true, &["network", "rm", "backend"]);
    assert_eq!(Progress::Done(Ok(s(""))), advance_guarded(state, Ok(s("backend"))));

    assert_eq!(args(&["network", "prune", "-f"]), prune_networks());
}

#[test]
fn volumes() {
    let start = create_volume("data");
    assert_eq!(args(&["inspect", "--type", "volume", "data"]), start.1);
    assert_eq!(Progress::Done(Ok(s("data"))), check_then(start.0, true));
    let state = acts(create_volume("data"), false, &["volume", "create", "data"]);
    assert_eq!(Progress::Done(Ok(s("data"))), advance_guarded(state, Ok(s("something else"))));
    let state = acts(create_volume("data"), false, &["volume", "create", "data"]);
    assert_eq!(Progress::Done(Err(failed("disk"))), advance_guarded(state, Err(failed("disk"))));

    assert_eq!(Progress::Done(Ok(s(""))), check_then(rm_volume("data").0, false));
    let state = acts(rm_volume("data"), true, &["volume", "rm", "data"]);
    assert_eq!(Progress::Done(Ok(s(""))), advance_guarded(state, Ok(s("data"))));

    assert_eq!(args(&["inspect", "--type", "volume", "data"]), exists_volume("data"));
}

#[test]
fn a_guarded_plan_made_by_hand() {
    let plan = Guarded {
        action: args(&["do"]),
        act_when_exists: false,
        settled: s("kept"),
        after: After::Settled,
    };
    assert_eq!(
        Progress::Done(Ok(s("kept"))),
        advance_guarded(GuardedState::AwaitingCheck(plan), Ok(s("")))
    );
    let state = GuardedState::AwaitingAction { settled: s("kept"), after: After::Output };
    assert_eq!(Progress::Done(Ok(s("out"))), advance_guarded(state, Ok(s("out"))));
}

#[test]
fn listing_containers() {
    assert_eq!(args(&["ps", "--format", "{{json .}}"]), list_command(false));
    assert_eq!(args(&["ps", "--format", "{{json .}}", "-a"]), list_command(true));

    let first = r#"{"ID":"4f2a9c","Names":"web","Image":"nginx:1.27","State":"running","Status":"Up 2 hours","Ports":"80/tcp"}"#;
    let second = r#"{"ID":"77aa01","Names":"db,primary","Image":"postgres:16","State":"exited","Status":"Exited (0) 3 days ago"}"#;
    let output = format!("{first}\r\n   \n{second}");
    let expected = vec![
        ContainerSummary {
            id: s("4f2a9c"),
            name: s("web"),
            image: s("nginx:1.27"),
            state: s("running"),
            status: s("Up 2 hours"),
        },
        ContainerSummary {
            id: s("77aa01"),
            name: s("db,primary"),
            image: s("postgres:16"),
            state: s("exited"),
            status: s("Exited (0) 3 days ago"),
        },
    ];
    assert_eq!(Ok(expected), list_containers(Ok(output)));
    assert_eq!(Ok(vec![]), list_containers(Ok(s(""))));
    assert_eq!(Ok(vec![]), list_containers(Ok(s("\n \n"))));
    assert_eq!(Err(failed("daemon down")), list_containers(Err(failed("daemon down"))));
}

#[test]
fn a_line_that_is_no_container_is_a_decode_error() {
    let good = r#"{"ID":"1","Names":"a","Image":"i","State":"running","Status":"Up"}"#;
    let bad = r#"{"ID":"2","Names":"b"}"#;
    let output = format!("{good}\n{bad}\nnot json");
    assert_eq!(Err(ActivityError::Decode { body: s(bad) }), list_containers(Ok(output)));
    assert_eq!(None, read_summary(bad));
    assert!(read_summary(good).is_some());
    let some = || Some(s("x"));
    assert!(decide_summary(some(), some(), some(), some(), some()).is_some());
    assert_eq!(None, decide_summary(None, some(), some(), some(), some()));
    assert_eq!(None, decide_summary(some(), some(), some(), some(), None));
}
