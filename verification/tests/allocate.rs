use activity_reconcile::error::ActivityError;
use activity_reconcile::fly::allocate::{
    advance_allocation, allocate, begin_allocation, decide_assign, request_for, resolve_assign,
    resolve_release, Allocation, IpCall,
};
use activity_reconcile::fly::ips::{
    AssignIpBody, FlyIpType, IpDetail, IpVariant, Ipv4Config, Ipv6Config,
};
use activity_reconcile::http::Method;
use activity_reconcile::protocol::Progress;
use activity_reconcile::slug::AppName;

fn s(t: &str) -> String {
    t.to_string()
}

fn v4(ip: &str) -> IpDetail {
    IpDetail { ip: s(ip), ip_variant: IpVariant::Ipv4(Ipv4Config { shared: false, region: None }) }
}

fn listing(ips: &[&str]) -> String {
    let entries: Vec<String> =
        ips.iter().map(|ip| format!("{{\"ip\": \"{ip}\", \"region\": \"global\"}}")).collect();
    format!("{{\"ips\": [{}]}}", entries.join(", "))
}

/// Runs an allocation to its end against scripted replies; returns the
/// addresses released, in order, and the outcome.
fn run(
    pre_existing: &[&str],
    replies: &[(u16, String)],
) -> (Vec<String>, Result<String, ActivityError>) {
    let pre: Vec<IpDetail> = pre_existing.iter().map(|ip| v4(ip)).collect();
    let config = IpVariant::Ipv6(Ipv6Config { region: None });
    let (mut state, first) = begin_allocation(&config, &pre);
    assert_eq!(IpCall::Assign(AssignIpBody { ip_type: FlyIpType::V6, region: None }), first);
    let mut released = Vec::new();
    let mut replies = replies.iter();
    loop {
        let (status, body) = replies.next().expect("the protocol asked for more replies");
        match advance_allocation(state, *status, body) {
            Progress::Done(outcome) => {
                assert!(replies.next().is_none(), "the protocol ended early");
                return (released, outcome);
            }
            Progress::Continue { state: next, call } => {
                if let IpCall::Release(ip) = &call {
                    released.push(ip.clone());
                } else {
                    assert_eq!(IpCall::List, call);
                    assert!(matches!(next, Allocation::AwaitingList { .. }));
                }
                state = next;
            }
        }
    }
}

#[test]
fn one_leak_is_released_and_the_new_address_returned() {
    let replies = [
        (200, s("{\"ip\": \"c\"}")),
        (200, listing(&["a", "b", "c", "d"])),
        (200, s("")),
    ];
    let (released, outcome) = run(&["a", "b"], &replies);
    assert_eq!(vec![s("d")], released);
    assert_eq!(Ok(s("c")), outcome);
}

#[test]
fn a_converged_app_needs_no_release() {
    let replies = [(200, s("{\"ip\": \"c\"}")), (200, listing(&["a", "b", "c"]))];
    let (released, outcome) = run(&["a", "b"], &replies);
    assert!(released.is_empty());
    assert_eq!(Ok(s("c")), outcome);

    let replies = [(201, s("{\"ip\": \"c\"}")), (200, listing(&["c"]))];
    let (released, outcome) = run(&[], &replies);
    assert!(released.is_empty());
    assert_eq!(Ok(s("c")), outcome);
}

#[test]
fn a_release_of_a_missing_address_is_a_success() {
    let replies = [
        (200, s("{\"ip\": \"c\"}")),
        (200, listing(&["c", "d", "e"])),
        (404, s("not found")),
        (204, s("")),
    ];
    let (mut released, outcome) = run(&[], &replies);
    released.sort();
    assert_eq!(vec![s("d"), s("e")], released);
    assert_eq!(Ok(s("c")), outcome);
    assert_eq!(Ok(()), resolve_release(404, "whatever"));
    assert_eq!(Ok(()), resolve_release(200, ""));
}

#[test]
fn a_refused_release_ends_the_run() {
    let replies = [
        (200, s("{\"ip\": \"c\"}")),
        (200, listing(&["c", "d", "e"])),
        (500, s("boom")),
    ];
    let (released, outcome) = run(&[], &replies);
    assert_eq!(1, released.len());
    assert_eq!(Err(ActivityError::Remote { status: 500, body: s("boom") }), outcome);
    assert_eq!(
        Err(ActivityError::Remote { status: 409, body: s("busy") }),
        resolve_release(409, "busy")
    );
}

#[test]
fn a_vanished_address_is_released_too() {
    let replies = [
        (200, s("{\"ip\": \"c\"}")),
        (200, listing(&["b", "c"])),
        (404, s("")),
    ];
    let (released, outcome) = run(&["a", "b"], &replies);
    assert_eq!(vec![s("a")], released);
    assert_eq!(Ok(s("c")), outcome);
}

#[test]
fn a_failed_allocation_ends_the_run_before_any_listing() {
    let (released, outcome) = run(&["a"], &[(422, s("quota"))]);
    assert!(released.is_empty());
    assert_eq!(Err(ActivityError::Remote { status: 422, body: s("quota") }), outcome);

    let (_, outcome) = run(&["a"], &[(200, s("{\"address\": \"c\"}"))]);
    assert_eq!(Err(ActivityError::Decode { body: s("{\"address\": \"c\"}") }), outcome);
}

#[test]
fn a_failed_listing_ends_the_run_before_any_release() {
    let (released, outcome) = run(&["a"], &[(200, s("{\"ip\": \"c\"}")), (503, s("later"))]);
    assert!(released.is_empty());
    assert_eq!(Err(ActivityError::Remote { status: 503, body: s("later") }), outcome);

    let (released, outcome) = run(&["a"], &[(200, s("{\"ip\": \"c\"}")), (200, s("{}"))]);
    assert!(released.is_empty());
    assert_eq!(Err(ActivityError::Decode { body: s("{}") }), outcome);
}

#[test]
fn the_state_keeps_only_addresses() {
    let pre = vec![v4("1.1.1.1"), IpDetail { ip: s("fdaa::1"), ip_variant: IpVariant::Ipv6Private }];
    let (state, _) = begin_allocation(&IpVariant::Ipv6Private, &pre);
    assert_eq!(Allocation::AwaitingAssign { pre_existing: vec![s("1.1.1.1"), s("fdaa::1")] }, state);
}

#[test]
fn a_release_state_without_pending_addresses_ends_with_the_allocated_one() {
    let state = Allocation::AwaitingRelease { allocated: s("c"), pending: vec![] };
    assert_eq!(Progress::Done(Ok(s("c"))), advance_allocation(state, 200, ""));
}

#[test]
fn releases_follow_the_pending_order() {
    let state = Allocation::AwaitingRelease { allocated: s("c"), pending: vec![s("x"), s("y")] };
    match advance_allocation(state, 404, "") {
        Progress::Continue { state, call } => {
            assert_eq!(IpCall::Release(s("y")), call);
            assert_eq!(Allocation::AwaitingRelease { allocated: s("c"), pending: vec![s("y")] }, state);
            assert_eq!(Progress::Done(Ok(s("c"))), advance_allocation(state, 200, ""));
        }
        other => panic!("unexpected step {other:?}"),
    }
}

#[test]
fn allocation_replies() {
    assert_eq!(Ok(s("2a09::1")), resolve_assign(200, "{\"ip\": \"2a09::1\"}"));
    assert_eq!(Err(ActivityError::Decode { body: s("[]") }), resolve_assign(200, "[]"));
    assert_eq!(
        Err(ActivityError::Remote { status: 404, body: s("{\"ip\": \"x\"}") }),
        resolve_assign(404, "{\"ip\": \"x\"}")
    );
    assert_eq!(Ok(s("x")), decide_assign(200, "", Some(s("x"))));
    assert_eq!(
        Err(ActivityError::Remote { status: 500, body: s("") }),
        decide_assign(500, "", Some(s("x")))
    );
}

#[test]
fn allocation_checks_the_app_name_first() {
    let config = IpVariant::Ipv4(Ipv4Config { shared: true, region: Some(s("ams")) });
    match allocate(s("my-app"), &config, &vec![v4("1.1.1.1")]) {
        Ok((app, state, call)) => {
            assert_eq!("my-app", app.as_ref());
            assert_eq!(Allocation::AwaitingAssign { pre_existing: vec![s("1.1.1.1")] }, state);
            assert_eq!(
                IpCall::Assign(AssignIpBody { ip_type: FlyIpType::SharedV4, region: Some(s("ams")) }),
                call
            );
        }
        Err(e) => panic!("unexpected error {e:?}"),
    }
    assert_eq!(Some(ActivityError::Validation), allocate(s("my/app"), &config, &vec![]).err());
}

#[test]
fn requests_of_the_protocol() {
    let app = AppName::new(s("my-app")).unwrap();
    let base = "https://api.machines.dev/v1/apps/my-app/ip_assignments";
    let r = request_for(&app, &IpCall::Assign(AssignIpBody { ip_type: FlyIpType::V4, region: None }));
    assert_eq!((Method::Post, s(base)), (r.method, r.url));
    let r = request_for(&app, &IpCall::List);
    assert_eq!((Method::Get, s(base)), (r.method, r.url));
    let r = request_for(&app, &IpCall::Release(s("2a09:8280:1::1")));
    assert_eq!((Method::Delete, format!("{base}/2a09:8280:1::1")), (r.method, r.url));
}
