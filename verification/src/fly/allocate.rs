//! Idempotent IP allocation. The provider's allocation endpoint mints a new
//! address on every call, so a retried activity can leak addresses. Each
//! run therefore allocates once, lists what the app now has, and releases
//! whatever differs from what the caller knew plus the new address.

use crate::error::{decode, remote, text_outcome, unit_outcome, ActivityError, ErrorView};
use crate::fly::ips::{
    addresses_of, assign_ip_body, assign_region, assign_type, expected_addresses, is_redundant,
    lemma_release_plan_is_symmetric_difference, list_outcome, plan_releases, release_plan,
    resolve_list, AssignIpBody, FlyIpType, IpDetail, IpDetailView, IpVariant,
};
use crate::fly::{app_url, build_app_url};
use crate::http::{is_success, status_is_success, Method, Request, RequestView, NOT_FOUND};
use crate::json::{read_text, text_member};
use crate::protocol::{Progress, ProgressView};
use crate::slug::{is_slug, AppName};
use crate::text::opt_text;
use vstd::prelude::*;
use vstd::string::StringExecFns;

verus! {

/// A request of the allocation protocol.
#[derive(Clone, Debug, PartialEq, Eq)]
pub enum IpCall {
    /// Allocate a new address.
    Assign(AssignIpBody),
    /// List the addresses of the app.
    List,
    /// Release one address.
    Release(String),
}

/// The mathematical counterpart of [`IpCall`].
pub enum IpCallView {
    Assign { ip_type: FlyIpType, region: Option<Seq<char>> },
    List,
    Release(Seq<char>),
}

impl View for IpCall {
    type V = IpCallView;

    open spec fn view(&self) -> IpCallView {
        match self {
            IpCall::Assign(body) => IpCallView::Assign {
                ip_type: body.ip_type,
                region: opt_text(body.region),
            },
            IpCall::List => IpCallView::List,
            IpCall::Release(address) => IpCallView::Release(address@),
        }
    }
}

/// Where an allocation stands between two requests. Nothing of it outlives
/// the run: what was known before comes from the caller on every attempt.
#[derive(Clone, Debug, PartialEq, Eq)]
pub enum Allocation {
    /// The allocation was requested.
    AwaitingAssign { pre_existing: Vec<String> },
    /// `allocated` was minted; the listing was requested.
    AwaitingList { allocated: String, pre_existing: Vec<String> },
    /// The release of the first of `pending` was requested.
    AwaitingRelease { allocated: String, pending: Vec<String> },
}

/// The mathematical counterpart of [`Allocation`].
pub enum AllocationView {
    AwaitingAssign { pre_existing: Seq<Seq<char>> },
    AwaitingList { allocated: Seq<char>, pre_existing: Seq<Seq<char>> },
    AwaitingRelease { allocated: Seq<char>, pending: Seq<Seq<char>> },
}

impl View for Allocation {
    type V = AllocationView;

    open spec fn view(&self) -> AllocationView {
        match self {
            Allocation::AwaitingAssign { pre_existing } => AllocationView::AwaitingAssign {
                pre_existing: pre_existing.deep_view(),
            },
            Allocation::AwaitingList { allocated, pre_existing } => AllocationView::AwaitingList {
                allocated: allocated@,
                pre_existing: pre_existing.deep_view(),
            },
            Allocation::AwaitingRelease { allocated, pending } => AllocationView::AwaitingRelease {
                allocated: allocated@,
                pending: pending.deep_view(),
            },
        }
    }
}

/// The request that performs `call` for the app `app`: allocation and
/// listing address the app's assignments, a release the one address.
pub open spec fn ip_request(app: Seq<char>, call: IpCallView) -> RequestView {
    match call {
        IpCallView::Assign { .. } => RequestView {
            method: Method::Post,
            url: app_url(app, "/ip_assignments"@),
        },
        IpCallView::List => RequestView {
            method: Method::Get,
            url: app_url(app, "/ip_assignments"@),
        },
        IpCallView::Release(address) => RequestView {
            method: Method::Delete,
            url: app_url(app, "/ip_assignments/"@ + address),
        },
    }
}

/// Builds the request that performs `call` for `app`.
pub fn request_for(app: &AppName, call: &IpCall) -> (request: Request)
    ensures
        request@ == ip_request(app@, call@),
{
    match call {
        IpCall::Assign(_) => Request {
            method: Method::Post,
            url: build_app_url(app, "/ip_assignments"),
        },
        IpCall::List => Request { method: Method::Get, url: build_app_url(app, "/ip_assignments") },
        IpCall::Release(address) => {
            let mut path = String::from_str("/ip_assignments/");
            path.append(address.as_str());
            Request { method: Method::Delete, url: build_app_url(app, path.as_str()) }
        },
    }
}

/// Where an allocation goes after a reply.
pub type AllocationProgress = ProgressView<AllocationView, IpCallView, Seq<char>>;

/// What an allocation reply yields, given the string member `ip` of its
/// body, `None` where it has none: the new address on 2xx, a decode error
/// on 2xx without the member, and the remote error on any other status.
pub open spec fn assign_outcome(status: u16, body: Seq<char>, ip: Option<Seq<char>>) -> Result<
    Seq<char>,
    ErrorView,
> {
    if is_success(status) {
        match ip {
            Some(address) => Ok(address),
            None => Err(decode(body)),
        }
    } else {
        Err(remote(status, body))
    }
}

/// Decides the outcome of an allocation request from its reply and the
/// `ip` member already read from the body.
pub fn decide_assign(status: u16, body: &str, ip: Option<String>) -> (r: Result<
    String,
    ActivityError,
>)
    ensures
        text_outcome(r) == assign_outcome(status, body@, opt_text(ip)),
{
    if status_is_success(status) {
        match ip {
            Some(address) => Ok(address),
            None => Err(ActivityError::decode(body)),
        }
    } else {
        Err(ActivityError::remote(status, body))
    }
}

/// Decides the outcome of an allocation request from its reply.
pub fn resolve_assign(status: u16, body: &str) -> (r: Result<String, ActivityError>)
    ensures
        text_outcome(r) == assign_outcome(status, body@, text_member(body@, "/ip"@)),
{
    if status_is_success(status) {
        decide_assign(status, body, read_text(body, "/ip"))
    } else {
        decide_assign(status, body, None)
    }
}

/// What a release reply yields. An address that the provider no longer
/// knows is released already: not found counts as success.
pub open spec fn release_outcome(status: u16, body: Seq<char>) -> Result<(), ErrorView> {
    if is_success(status) || status == NOT_FOUND {
        Ok(())
    } else {
        Err(remote(status, body))
    }
}

/// Decides the outcome of a release from its reply.
pub fn resolve_release(status: u16, body: &str) -> (r: Result<(), ActivityError>)
    ensures
        unit_outcome(r) == release_outcome(status, body@),
{
    if status_is_success(status) || status == NOT_FOUND {
        Ok(())
    } else {
        Err(ActivityError::remote(status, body))
    }
}

/// The addresses of listed entries, in order.
pub open spec fn listed_addresses(details: Seq<IpDetailView>) -> Seq<Seq<char>> {
    Seq::new(details.len(), |i: int| details[i].ip)
}

/// What follows once `pending` is all that is left to release: the release
/// of its first address, or the end with `allocated` where it is empty.
pub open spec fn release_next(allocated: Seq<char>, pending: Seq<Seq<char>>) -> AllocationProgress {
    if pending.len() == 0 {
        ProgressView::Done(Ok(allocated))
    } else {
        ProgressView::Continue {
            state: AllocationView::AwaitingRelease { allocated, pending },
            call: IpCallView::Release(pending[0]),
        }
    }
}

/// `pending` without the address whose release was just confirmed.
pub open spec fn after_first(pending: Seq<Seq<char>>) -> Seq<Seq<char>> {
    if pending.len() == 0 {
        pending
    } else {
        pending.skip(1)
    }
}

/// The protocol's rule: what follows the reply `status`, `body` in `state`.
///
/// - After the allocation: its error ends the run; its address is kept and
///   the listing follows.
/// - After the listing: its error ends the run; otherwise the releases of
///   the plan follow, or the run ends with the allocated address where
///   nothing is to release.
/// - After a release: its error ends the run; otherwise the next pending
///   release follows, or the run ends with the allocated address.
pub open spec fn allocation_follows(
    state: AllocationView,
    status: u16,
    body: Seq<char>,
) -> AllocationProgress {
    match state {
        AllocationView::AwaitingAssign { pre_existing } => match assign_outcome(
            status,
            body,
            text_member(body, "/ip"@),
        ) {
            Err(e) => AllocationProgress::Done(Err(e)),
            Ok(allocated) => AllocationProgress::Continue {
                state: AllocationView::AwaitingList { allocated, pre_existing },
                call: IpCallView::List,
            },
        },
        AllocationView::AwaitingList { allocated, pre_existing } => match list_outcome(
            status,
            body,
        ) {
            Err(e) => AllocationProgress::Done(Err(e)),
            Ok(details) => release_next(
                allocated,
                release_plan(pre_existing, allocated, listed_addresses(details)),
            ),
        },
        AllocationView::AwaitingRelease { allocated, pending } => match release_outcome(
            status,
            body,
        ) {
            Err(e) => AllocationProgress::Done(Err(e)),
            Ok(()) => release_next(allocated, after_first(pending)),
        },
    }
}

/// Starts an allocation of the variant `config` for an app of which the
/// caller knows the addresses `pre_existing`: the first request is the
/// allocation itself.
pub fn begin_allocation(config: &IpVariant, pre_existing: &Vec<IpDetail>) -> (start: (
    Allocation,
    IpCall,
))
    ensures
        start.0@ == (AllocationView::AwaitingAssign {
            pre_existing: Seq::new(pre_existing@.len(), |i: int| pre_existing@[i].ip@),
        }),
        start.1@ == (IpCallView::Assign {
            ip_type: assign_type(config@),
            region: assign_region(config@),
        }),
{
    (
        Allocation::AwaitingAssign { pre_existing: addresses_of(pre_existing) },
        IpCall::Assign(assign_ip_body(config)),
    )
}

/// Starts an allocation from the caller's raw app name: the name is
/// checked before anything is sent.
pub fn allocate(app_name: String, config: &IpVariant, pre_existing: &Vec<IpDetail>) -> (start:
    Result<(AppName, Allocation, IpCall), ActivityError>)
    ensures
        start is Ok <==> is_slug(app_name@),
        start matches Ok(s) ==> {
            &&& s.0@ == app_name@
            &&& s.1@ == (AllocationView::AwaitingAssign {
                pre_existing: Seq::new(pre_existing@.len(), |i: int| pre_existing@[i].ip@),
            })
            &&& s.2@ == (IpCallView::Assign {
                ip_type: assign_type(config@),
                region: assign_region(config@),
            })
        },
        start matches Err(e) ==> e@ == ErrorView::Validation,
{
    match AppName::new(app_name) {
        Err(e) => Err(e),
        Ok(app) => {
            let (state, call) = begin_allocation(config, pre_existing);
            Ok((app, state, call))
        },
    }
}

/// The step after `pending` is all that is left to release.
fn release_pending(allocated: String, pending: Vec<String>) -> (next: Progress<
    Allocation,
    IpCall,
    String,
>)
    ensures
        next@ == release_next(allocated@, pending.deep_view()),
{
    if pending.len() == 0 {
        Progress::Done(Ok(allocated))
    } else {
        let first = pending[0].clone();
        Progress::Continue {
            state: Allocation::AwaitingRelease { allocated, pending },
            call: IpCall::Release(first),
        }
    }
}

/// Advances an allocation by the reply to its last request.
pub fn advance_allocation(state: Allocation, status: u16, body: &str) -> (next: Progress<
    Allocation,
    IpCall,
    String,
>)
    ensures
        next@ == allocation_follows(state@, status, body@),
{
    match state {
        Allocation::AwaitingAssign { pre_existing } => match resolve_assign(status, body) {
            Err(e) => Progress::Done(Err(e)),
            Ok(allocated) => Progress::Continue {
                state: Allocation::AwaitingList { allocated, pre_existing },
                call: IpCall::List,
            },
        },
        Allocation::AwaitingList { allocated, pre_existing } => match resolve_list(status, body) {
            Err(e) => Progress::Done(Err(e)),
            Ok(details) => {
                let post_existing = addresses_of(&details);
                assert(post_existing.deep_view() =~= listed_addresses(
                    list_outcome(status, body@)->Ok_0,
                ));
                let pending = plan_releases(&pre_existing, allocated.as_str(), &post_existing);
                release_pending(allocated, pending)
            },
        },
        Allocation::AwaitingRelease { allocated, pending } => match resolve_release(status, body) {
            Err(e) => Progress::Done(Err(e)),
            Ok(()) => {
                let ghost before = pending.deep_view();
                let mut rest = pending;
                if rest.len() > 0 {
                    rest.remove(0);
                }
                assert(rest.deep_view() =~= after_first(before));
                release_pending(allocated, rest)
            },
        },
    }
}

/// The requests of a run come in order: nothing is listed before the
/// allocation has answered, and nothing is released before the listing
/// has.
pub proof fn lemma_requests_come_in_order(state: AllocationView, status: u16, body: Seq<char>)
    ensures
        allocation_follows(state, status, body) matches ProgressView::Continue {
            state: next,
            call,
        } ==> {
            &&& state is AwaitingAssign ==> call is List && next is AwaitingList
            &&& !(state is AwaitingAssign) ==> call is Release && next is AwaitingRelease
        },
{
}

/// The redundant addresses, as a set: the symmetric difference of what is
/// listed and what is expected.
pub open spec fn redundant_addresses(listed: Seq<Seq<char>>, expected: Set<Seq<char>>) -> Set<
    Seq<char>,
> {
    Set::new(|a: Seq<char>| is_redundant(a, listed, expected))
}

/// As many releases are planned as there are redundant addresses, and no
/// address that is both listed and expected is ever released.
pub proof fn lemma_release_plan_spares_the_expected(
    pre_existing: Seq<Seq<char>>,
    allocated: Seq<char>,
    listed: Seq<Seq<char>>,
)
    ensures
        release_plan(pre_existing, allocated, listed).len() == redundant_addresses(
            listed,
            expected_addresses(pre_existing, allocated),
        ).len(),
        forall|a: Seq<char>|
            listed.contains(a) && expected_addresses(pre_existing, allocated).contains(a)
                ==> !release_plan(pre_existing, allocated, listed).contains(a),
{
    let plan = release_plan(pre_existing, allocated, listed);
    let expected = expected_addresses(pre_existing, allocated);
    lemma_release_plan_is_symmetric_difference(pre_existing, allocated, listed);
    assert(plan.to_set() =~= redundant_addresses(listed, expected));
    plan.unique_seq_to_set();
}

/// After the releases of the plan, whatever the provider still lists of
/// what it listed before was expected: nothing that leaked stays.
pub proof fn lemma_what_remains_was_expected(
    pre_existing: Seq<Seq<char>>,
    allocated: Seq<char>,
    listed: Seq<Seq<char>>,
    address: Seq<char>,
)
    requires
        listed.contains(address),
        !release_plan(pre_existing, allocated, listed).contains(address),
    ensures
        expected_addresses(pre_existing, allocated).contains(address),
{
    lemma_release_plan_is_symmetric_difference(pre_existing, allocated, listed);
}

/// Where the provider lists exactly the expected addresses, nothing is
/// released: the listing is followed at once by the end of the run, with
/// the allocated address.
pub proof fn lemma_converged_needs_no_release(
    pre_existing: Seq<Seq<char>>,
    allocated: Seq<char>,
    listed: Seq<Seq<char>>,
)
    requires
        listed.to_set() == expected_addresses(pre_existing, allocated),
    ensures
        release_plan(pre_existing, allocated, listed) == Seq::<Seq<char>>::empty(),
        release_next(allocated, release_plan(pre_existing, allocated, listed))
            == AllocationProgress::Done(Ok(allocated)),
{
    let plan = release_plan(pre_existing, allocated, listed);
    lemma_release_plan_is_symmetric_difference(pre_existing, allocated, listed);
    if plan.len() > 0 {
        assert(plan.contains(plan[0]));
        assert(listed.to_set().contains(plan[0]) == listed.contains(plan[0]));
    }
    assert(plan =~= Seq::<Seq<char>>::empty());
}

/// With `a` and `b` known before, `c` allocated and `a`, `b`, `c`, `d`
/// listed, where `d` is none of the other three, exactly `d` is released:
/// once, and neither `a` nor `b` nor `c`.
pub proof fn lemma_single_leak_is_released(a: Seq<char>, b: Seq<char>, c: Seq<char>, d: Seq<char>)
    requires
        d != a,
        d != b,
        d != c,
    ensures
        release_plan(seq![a, b], c, seq![a, b, c, d]) == seq![d],
{
    let listed = seq![a, b, c, d];
    let known = seq![a, b];
    let expected = expected_addresses(known, c);
    let plan = release_plan(known, c, listed);
    lemma_release_plan_is_symmetric_difference(known, c, listed);
    assert(listed[0] == a && listed[1] == b && listed[2] == c && listed[3] == d);
    assert(known[0] == a && known[1] == b);
    assert(listed.contains(d));
    assert(!known.contains(d));
    assert(is_redundant(d, listed, expected));
    assert(plan.contains(d));
    assert forall|i: int| 0 <= i < plan.len() implies plan[i] == d by {
        assert(plan.contains(plan[i]));
        assert(known.contains(a) && known.contains(b));
        assert(is_redundant(plan[i], listed, expected));
    }
    if plan.len() > 1 {
        assert(plan[0] == plan[1]);
    }
    assert(plan =~= seq![d]);
}

/// A reply that a release accepts: 2xx or not found.
pub open spec fn is_released(reply: (u16, Seq<char>)) -> bool {
    release_outcome(reply.0, reply.1) is Ok
}

/// Where a run stands after `replies` have answered its requests, in
/// order, starting from `progress`. Replies beyond the end of the run
/// change nothing.
pub open spec fn proceed(
    progress: AllocationProgress,
    replies: Seq<(u16, Seq<char>)>,
) -> AllocationProgress
    decreases replies.len(),
{
    if replies.len() == 0 {
        progress
    } else {
        match progress {
            ProgressView::Done(_) => progress,
            ProgressView::Continue { state, .. } => proceed(
                allocation_follows(state, replies[0].0, replies[0].1),
                replies.skip(1),
            ),
        }
    }
}

/// The addresses whose release a run requests, in order, from `progress`
/// on and while `replies` answer its requests.
pub open spec fn releases(progress: AllocationProgress, replies: Seq<(u16, Seq<char>)>) -> Seq<
    Seq<char>,
>
    decreases replies.len(),
{
    match progress {
        ProgressView::Done(_) => Seq::empty(),
        ProgressView::Continue { state, call } => {
            let first = match call {
                IpCallView::Release(address) => seq![address],
                _ => Seq::empty(),
            };
            if replies.len() == 0 {
                first
            } else {
                first + releases(
                    allocation_follows(state, replies[0].0, replies[0].1),
                    replies.skip(1),
                )
            }
        },
    }
}

/// One accepted reply for each pending address ends the run with the
/// allocated address, and the releases requested on the way are those of
/// the pending addresses, each once and in their order.
pub proof fn lemma_releases_end_with_allocated(
    allocated: Seq<char>,
    pending: Seq<Seq<char>>,
    replies: Seq<(u16, Seq<char>)>,
)
    requires
        replies.len() == pending.len(),
        forall|i: int| 0 <= i < replies.len() ==> #[trigger] is_released(replies[i]),
    ensures
        proceed(release_next(allocated, pending), replies) == AllocationProgress::Done(
            Ok(allocated),
        ),
        releases(release_next(allocated, pending), replies) == pending,
    decreases pending.len(),
{
    if pending.len() > 0 {
        assert(is_released(replies[0]));
        let rest = replies.skip(1);
        assert forall|i: int| 0 <= i < rest.len() implies #[trigger] is_released(rest[i]) by {
            assert(rest[i] == replies[i + 1]);
            assert(is_released(replies[i + 1]));
        }
        lemma_releases_end_with_allocated(allocated, pending.skip(1), rest);
        assert(seq![pending[0]] + pending.skip(1) =~= pending);
    } else {
        assert(pending =~= Seq::<Seq<char>>::empty());
    }
}

/// Convergence. Whatever the caller knew before and whatever the provider
/// lists after the allocation, a run whose allocation and listing succeed
/// and whose releases are accepted ends with the allocated address, and
/// releases exactly the addresses of the plan: those that differ from what
/// was known plus the allocated one.
pub proof fn lemma_allocation_converges(
    pre_existing: Seq<Seq<char>>,
    first: IpCallView,
    assigned: (u16, Seq<char>),
    allocated: Seq<char>,
    listed: (u16, Seq<char>),
    released: Seq<(u16, Seq<char>)>,
)
    requires
        first is Assign,
        assign_outcome(assigned.0, assigned.1, text_member(assigned.1, "/ip"@)) == Ok::<
            Seq<char>,
            ErrorView,
        >(allocated),
        list_outcome(listed.0, listed.1) is Ok,
        released.len() == release_plan(
            pre_existing,
            allocated,
            listed_addresses(list_outcome(listed.0, listed.1)->Ok_0),
        ).len(),
        forall|i: int| 0 <= i < released.len() ==> #[trigger] is_released(released[i]),
    ensures
        proceed(
            AllocationProgress::Continue {
                state: AllocationView::AwaitingAssign { pre_existing },
                call: first,
            },
            seq![assigned, listed] + released,
        ) == AllocationProgress::Done(Ok(allocated)),
        releases(
            AllocationProgress::Continue {
                state: AllocationView::AwaitingAssign { pre_existing },
                call: first,
            },
            seq![assigned, listed] + released,
        ) == release_plan(
            pre_existing,
            allocated,
            listed_addresses(list_outcome(listed.0, listed.1)->Ok_0),
        ),
{
    let plan = release_plan(
        pre_existing,
        allocated,
        listed_addresses(list_outcome(listed.0, listed.1)->Ok_0),
    );
    let replies = seq![assigned, listed] + released;
    let start = AllocationProgress::Continue {
        state: AllocationView::AwaitingAssign { pre_existing },
        call: first,
    };
    let listing = AllocationProgress::Continue {
        state: AllocationView::AwaitingList { allocated, pre_existing },
        call: IpCallView::List,
    };
    assert(replies[0] == assigned);
    assert(replies.skip(1)[0] == listed);
    assert(replies.skip(1).skip(1) =~= released);
    lemma_releases_end_with_allocated(allocated, plan, released);
    assert(allocation_follows(
        AllocationView::AwaitingAssign { pre_existing },
        assigned.0,
        assigned.1,
    ) == listing);
    assert(allocation_follows(
        AllocationView::AwaitingList { allocated, pre_existing },
        listed.0,
        listed.1,
    ) == release_next(allocated, plan));
    assert(proceed(listing, replies.skip(1)) == proceed(release_next(allocated, plan), released));
    assert(proceed(start, replies) == proceed(listing, replies.skip(1)));
    assert(releases(listing, replies.skip(1)) =~= releases(
        release_next(allocated, plan),
        released,
    ));
    assert(releases(start, replies) =~= releases(listing, replies.skip(1)));
}

/// A release that the provider answers with not found is a success.
pub proof fn lemma_release_of_missing_is_success(body: Seq<char>)
    ensures
        release_outcome(NOT_FOUND, body) == Ok::<(), ErrorView>(()),
{
}

} // verus!
