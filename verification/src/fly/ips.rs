//! IP assignments: the variants an address can have, how a listed address
//! is classified, and which addresses a retried allocation must release.

use crate::error::{decode, remote, ActivityError, ErrorView};
use crate::http::{is_success, status_is_success};
use crate::json::{json_at, json_items, read_items, value_at, JsonValue, JsonView};
use crate::text::{
    ascii_lowercase, contains_char, eq_ignore_ascii_case, has_char, occurs_at, opt_text,
    same_text, starts_with, to_ascii_lowercase,
};
use vstd::prelude::*;
use vstd::string::StringExecFns;

verus! {

/// A provider region, by its lower-case code. Which codes exist is the
/// provider's matter: the reconciler only carries them.
pub type Region = String;

#[derive(Clone, Debug, PartialEq, Eq)]
/// An IPv4 address: shared with other apps or dedicated, in a region or
/// in none.
pub struct Ipv4Config {
    pub shared: bool,
    pub region: Option<Region>,
}

#[derive(Clone, Debug, PartialEq, Eq)]
/// A public IPv6 address, in a region or in none.
pub struct Ipv6Config {
    pub region: Option<Region>,
}

/// The kinds of address that can be allocated to an app.
#[derive(Clone, Debug, PartialEq, Eq)]
pub enum IpVariant {
    Ipv4(Ipv4Config),
    Ipv6(Ipv6Config),
    Ipv6Private,
}

/// One address assigned to an app.
#[derive(Clone, Debug, PartialEq, Eq)]
pub struct IpDetail {
    pub ip: String,
    pub ip_variant: IpVariant,
}

/// The mathematical counterpart of [`IpVariant`].
pub enum IpVariantView {
    Ipv4 { shared: bool, region: Option<Seq<char>> },
    Ipv6 { region: Option<Seq<char>> },
    Ipv6Private,
}

/// The mathematical counterpart of [`IpDetail`].
pub struct IpDetailView {
    pub ip: Seq<char>,
    pub ip_variant: IpVariantView,
}

impl View for IpVariant {
    type V = IpVariantView;

    open spec fn view(&self) -> IpVariantView {
        match self {
            IpVariant::Ipv4(c) => IpVariantView::Ipv4 {
                shared: c.shared,
                region: opt_text(c.region),
            },
            IpVariant::Ipv6(c) => IpVariantView::Ipv6 { region: opt_text(c.region) },
            IpVariant::Ipv6Private => IpVariantView::Ipv6Private,
        }
    }
}

impl View for IpDetail {
    type V = IpDetailView;

    open spec fn view(&self) -> IpDetailView {
        IpDetailView { ip: self.ip@, ip_variant: self.ip_variant@ }
    }
}

/// The views of a list of addresses, in order.
pub open spec fn details_view(details: Seq<IpDetail>) -> Seq<IpDetailView> {
    Seq::new(details.len(), |i: int| details[i]@)
}

/// The address type as the provider's allocation endpoint names it.
#[derive(Clone, Copy, Debug, PartialEq, Eq, Structural)]
pub enum FlyIpType {
    V4,
    V6,
    PrivateV6,
    SharedV4,
}

impl FlyIpType {
    /// The provider's name for the type.
    pub fn wire_name(&self) -> (name: &'static str)
        ensures
            name@ == match self {
                FlyIpType::V4 => "v4"@,
                FlyIpType::V6 => "v6"@,
                FlyIpType::PrivateV6 => "private_v6"@,
                FlyIpType::SharedV4 => "shared_v4"@,
            },
    {
        match self {
            FlyIpType::V4 => "v4",
            FlyIpType::V6 => "v6",
            FlyIpType::PrivateV6 => "private_v6",
            FlyIpType::SharedV4 => "shared_v4",
        }
    }
}

/// The body of an allocation request.
#[derive(Clone, Debug, PartialEq, Eq)]
pub struct AssignIpBody {
    pub ip_type: FlyIpType,
    pub region: Option<Region>,
}

/// The allocation type for a variant.
pub open spec fn assign_type(config: IpVariantView) -> FlyIpType {
    match config {
        IpVariantView::Ipv4 { shared, .. } => if shared {
            FlyIpType::SharedV4
        } else {
            FlyIpType::V4
        },
        IpVariantView::Ipv6 { .. } => FlyIpType::V6,
        IpVariantView::Ipv6Private => FlyIpType::PrivateV6,
    }
}

/// The region sent with an allocation; a private IPv6 address has none.
pub open spec fn assign_region(config: IpVariantView) -> Option<Seq<char>> {
    match config {
        IpVariantView::Ipv4 { region, .. } => region,
        IpVariantView::Ipv6 { region } => region,
        IpVariantView::Ipv6Private => None,
    }
}

/// The request body that allocates an address of the variant `config`.
pub fn assign_ip_body(config: &IpVariant) -> (body: AssignIpBody)
    ensures
        body.ip_type == assign_type(config@),
        opt_text(body.region) == assign_region(config@),
{
    match config {
        IpVariant::Ipv4(c) => AssignIpBody {
            ip_type: if c.shared {
                FlyIpType::SharedV4
            } else {
                FlyIpType::V4
            },
            region: c.region.clone(),
        },
        IpVariant::Ipv6(c) => AssignIpBody { ip_type: FlyIpType::V6, region: c.region.clone() },
        IpVariant::Ipv6Private => AssignIpBody { ip_type: FlyIpType::PrivateV6, region: None },
    }
}

/// The region sentinel that the list endpoint reports where an address has
/// no region.
pub const GLOBAL: &'static str = "global";

/// The region of a listed address: none where the provider reports none or
/// the sentinel `global` in any ASCII case, else the code in lower case.
pub open spec fn normalize_region(raw: Option<Seq<char>>) -> Option<Seq<char>> {
    match raw {
        None => None,
        Some(code) => if ascii_lowercase(code) == GLOBAL@ {
            None
        } else {
            Some(ascii_lowercase(code))
        },
    }
}

/// Normalizes the region that the list endpoint reports for an address.
pub fn deserialize_optional_region(raw: Option<String>) -> (region: Option<Region>)
    ensures
        opt_text(region) == normalize_region(opt_text(raw)),
{
    match raw {
        None => None,
        Some(code) => {
            proof {
                reveal_strlit("global");
                assert(ascii_lowercase(GLOBAL@) =~= GLOBAL@);
            }
            if eq_ignore_ascii_case(code.as_str(), GLOBAL) {
                None
            } else {
                Some(to_ascii_lowercase(code.as_str()))
            }
        },
    }
}

/// The sentinel in any ASCII case is no region, never a region of that
/// name and never an error.
pub proof fn lemma_global_is_no_region(code: Seq<char>)
    requires
        ascii_lowercase(code) == GLOBAL@,
    ensures
        normalize_region(Some(code)) == None::<Seq<char>>,
        normalize_region(Some(GLOBAL@)) == None::<Seq<char>>,
{
    reveal_strlit("global");
    assert(ascii_lowercase(GLOBAL@) =~= GLOBAL@);
}

/// What opens every private IPv6 address of the provider.
pub const PRIVATE_V6_PREFIX: &'static str = "fdaa";

/// The variant of a listed address. The list endpoint does not label it:
/// an address with a colon is IPv6, private where it opens with the
/// private prefix; any other is IPv4, dedicated unless reported shared.
pub open spec fn classify_ip(
    ip: Seq<char>,
    region: Option<Seq<char>>,
    shared: Option<bool>,
) -> IpVariantView {
    if contains_char(ip, ':') {
        if occurs_at(ip, PRIVATE_V6_PREFIX@, 0) {
            IpVariantView::Ipv6Private
        } else {
            IpVariantView::Ipv6 { region }
        }
    } else {
        IpVariantView::Ipv4 {
            shared: match shared {
                Some(s) => s,
                None => false,
            },
            region,
        }
    }
}

/// Classifies a listed address.
pub fn ip_variant_of(ip: &str, region: Option<Region>, shared: Option<bool>) -> (variant: IpVariant)
    ensures
        variant@ == classify_ip(ip@, opt_text(region), shared),
{
    if has_char(ip, ':') {
        if starts_with(ip, PRIVATE_V6_PREFIX) {
            IpVariant::Ipv6Private
        } else {
            IpVariant::Ipv6(Ipv6Config { region })
        }
    } else {
        IpVariant::Ipv4(
            Ipv4Config {
                shared: match shared {
                    Some(s) => s,
                    None => false,
                },
                region,
            },
        )
    }
}

/// One entry of the list endpoint's reply from its three members: `ip`
/// must be a string, `region` must be present and a string or `null`,
/// `shared` may be absent, `null` or a boolean. Anything else is no entry.
pub open spec fn ip_detail_of(ip: JsonView, region: JsonView, shared: JsonView) -> Option<
    IpDetailView,
> {
    let region_ok = region is Null || region is Text;
    let shared_ok = shared is Absent || shared is Null || shared is Bool;
    if ip is Text && region_ok && shared_ok {
        let raw_region = match region {
            JsonView::Text(code) => Some(code),
            _ => None,
        };
        let raw_shared = match shared {
            JsonView::Bool(s) => Some(s),
            _ => None,
        };
        Some(
            IpDetailView {
                ip: ip->Text_0,
                ip_variant: classify_ip(ip->Text_0, normalize_region(raw_region), raw_shared),
            },
        )
    } else {
        None
    }
}

/// Builds one entry of the list from its three members, where they have
/// the expected shape.
pub fn decide_ip_detail(ip: JsonValue, region: JsonValue, shared: JsonValue) -> (detail: Option<
    IpDetail,
>)
    ensures
        detail is Some <==> ip_detail_of(ip@, region@, shared@) is Some,
        detail matches Some(d) ==> ip_detail_of(ip@, region@, shared@) == Some(d@),
{
    let raw_region = match region {
        JsonValue::Null => None,
        JsonValue::Text(code) => Some(code),
        _ => {
            return None;
        },
    };
    let raw_shared = match shared {
        JsonValue::Absent => None,
        JsonValue::Null => None,
        JsonValue::Bool(s) => Some(s),
        _ => {
            return None;
        },
    };
    match ip {
        JsonValue::Text(address) => {
            let variant = ip_variant_of(
                address.as_str(),
                deserialize_optional_region(raw_region),
                raw_shared,
            );
            Some(IpDetail { ip: address, ip_variant: variant })
        },
        _ => None,
    }
}

/// The entry that the JSON text `item` describes, if it describes one.
pub open spec fn listed_ip(item: Seq<char>) -> Option<IpDetailView> {
    ip_detail_of(
        json_at(item, "/ip"@),
        json_at(item, "/region"@),
        json_at(item, "/shared"@),
    )
}

/// Every element describes an entry.
pub open spec fn all_listed(items: Seq<Seq<char>>) -> bool {
    forall|i: int| 0 <= i < items.len() ==> (#[trigger] listed_ip(items[i])) is Some
}

/// What a listing returns for a reply with `status` and `body`: on 2xx the
/// entries of the array `ips`, in order, and a decode error where the body
/// has no such array or one element is no entry; otherwise the remote error.
pub open spec fn list_outcome(status: u16, body: Seq<char>) -> Result<
    Seq<IpDetailView>,
    ErrorView,
> {
    if !is_success(status) {
        Err(remote(status, body))
    } else {
        match json_items(body, "/ips"@) {
            None => Err(decode(body)),
            Some(items) => if all_listed(items) {
                Ok(Seq::new(items.len(), |i: int| listed_ip(items[i])->0))
            } else {
                Err(decode(body))
            },
        }
    }
}

/// The view of a listing's result.
pub open spec fn details_outcome(r: Result<Vec<IpDetail>, ActivityError>) -> Result<
    Seq<IpDetailView>,
    ErrorView,
> {
    match r {
        Ok(details) => Ok(details_view(details@)),
        Err(e) => Err(e@),
    }
}

/// Decides the outcome of a listing from its reply.
pub fn resolve_list(status: u16, body: &str) -> (r: Result<Vec<IpDetail>, ActivityError>)
    ensures
        details_outcome(r) == list_outcome(status, body@),
{
    if !status_is_success(status) {
        return Err(ActivityError::remote(status, body));
    }
    let items = match read_items(body, "/ips") {
        None => {
            return Err(ActivityError::decode(body));
        },
        Some(items) => items,
    };
    let ghost texts = json_items(body@, "/ips"@)->0;
    let mut details: Vec<IpDetail> = Vec::new();
    let mut i: usize = 0;
    while i < items.len()
        invariant
            i <= items.len(),
            items.deep_view() == texts,
            details.len() == i,
            is_success(status),
            json_items(body@, "/ips"@) == Some(texts),
            forall|j: int| 0 <= j < i ==> (#[trigger] listed_ip(texts[j])) == Some(details@[j]@),
        decreases items.len() - i,
    {
        let item = items[i].as_str();
        assert(item@ == texts[i as int]);
        let detail = decide_ip_detail(
            value_at(item, "/ip"),
            value_at(item, "/region"),
            value_at(item, "/shared"),
        );
        match detail {
            None => {
                assert(listed_ip(texts[i as int]) is None);
                return Err(ActivityError::decode(body));
            },
            Some(d) => {
                details.push(d);
            },
        }
        i += 1;
    }
    assert(all_listed(texts));
    assert(details_view(details@) =~= Seq::new(texts.len(), |i: int| listed_ip(texts[i])->0));
    Ok(details)
}

/// The addresses that should exist once `allocated` has been added to the
/// ones the caller knew before.
pub open spec fn expected_addresses(pre_existing: Seq<Seq<char>>, allocated: Seq<char>) -> Set<
    Seq<char>,
> {
    pre_existing.to_set().insert(allocated)
}

/// An address is redundant where the provider lists it and it is not
/// expected, or it is expected and the provider does not list it.
pub open spec fn is_redundant(
    address: Seq<char>,
    post_existing: Seq<Seq<char>>,
    expected: Set<Seq<char>>,
) -> bool {
    post_existing.contains(address) != expected.contains(address)
}

/// `pending` holds each redundant address once and nothing else: the
/// symmetric difference of what is listed and what is expected.
pub open spec fn is_release_plan(
    pending: Seq<Seq<char>>,
    post_existing: Seq<Seq<char>>,
    expected: Set<Seq<char>>,
) -> bool {
    &&& pending.no_duplicates()
    &&& forall|a: Seq<char>| #[trigger]
        pending.contains(a) <==> is_redundant(a, post_existing, expected)
}

/// The listed addresses that are not expected: each once, in the order in
/// which the provider first lists it.
pub open spec fn leaked(post_existing: Seq<Seq<char>>, expected: Set<Seq<char>>) -> Seq<Seq<char>>
    decreases post_existing.len(),
{
    if post_existing.len() == 0 {
        Seq::empty()
    } else {
        let before = leaked(post_existing.drop_last(), expected);
        let address = post_existing.last();
        if expected.contains(address) || before.contains(address) {
            before
        } else {
            before.push(address)
        }
    }
}

/// `found`, followed by the addresses of `wanted` that are not listed and
/// not in `found` yet: each once, in the order of `wanted`.
pub open spec fn with_vanished(
    wanted: Seq<Seq<char>>,
    post_existing: Seq<Seq<char>>,
    found: Seq<Seq<char>>,
) -> Seq<Seq<char>>
    decreases wanted.len(),
{
    if wanted.len() == 0 {
        found
    } else {
        let before = with_vanished(wanted.drop_last(), post_existing, found);
        let address = wanted.last();
        if post_existing.contains(address) || before.contains(address) {
            before
        } else {
            before.push(address)
        }
    }
}

/// The addresses to release: first what leaked, then what vanished of the
/// addresses known before and, last, of the allocated one.
pub open spec fn release_plan(
    pre_existing: Seq<Seq<char>>,
    allocated: Seq<char>,
    post_existing: Seq<Seq<char>>,
) -> Seq<Seq<char>> {
    with_vanished(
        pre_existing.push(allocated),
        post_existing,
        leaked(post_existing, expected_addresses(pre_existing, allocated)),
    )
}

/// What a sequence holds after one more element.
proof fn lemma_push_contains(s: Seq<Seq<char>>, x: Seq<char>, y: Seq<char>)
    ensures
        s.push(x).contains(y) <==> (s.contains(y) || y == x),
{
    if s.contains(y) {
        let i = choose|i: int| 0 <= i < s.len() && s[i] == y;
        assert(s.push(x)[i] == y);
    }
    if y == x {
        assert(s.push(x)[s.len() as int] == y);
    }
}

/// What a sequence holds, by its last element and the rest.
proof fn lemma_last_contains(s: Seq<Seq<char>>, y: Seq<char>)
    requires
        s.len() > 0,
    ensures
        s.contains(y) <==> (s.drop_last().contains(y) || y == s.last()),
{
    assert(s =~= s.drop_last().push(s.last()));
    lemma_push_contains(s.drop_last(), s.last(), y);
}

/// A new element keeps a sequence free of duplicates.
proof fn lemma_push_no_duplicates(s: Seq<Seq<char>>, x: Seq<char>)
    requires
        s.no_duplicates(),
        !s.contains(x),
    ensures
        s.push(x).no_duplicates(),
{
    assert forall|i: int, j: int|
        0 <= i < s.push(x).len() && 0 <= j < s.push(x).len() && i != j implies s.push(x)[i]
        != s.push(x)[j] by {
        if i < s.len() {
            assert(s.contains(s[i]));
        }
        if j < s.len() {
            assert(s.contains(s[j]));
        }
    }
}

/// What leaked holds each listed address that is not expected, once.
proof fn lemma_leaked(post_existing: Seq<Seq<char>>, expected: Set<Seq<char>>)
    ensures
        leaked(post_existing, expected).no_duplicates(),
        forall|a: Seq<char>| #[trigger]
            leaked(post_existing, expected).contains(a) <==> (post_existing.contains(a)
                && !expected.contains(a)),
    decreases post_existing.len(),
{
    if post_existing.len() > 0 {
        let rest = post_existing.drop_last();
        let before = leaked(rest, expected);
        let address = post_existing.last();
        lemma_leaked(rest, expected);
        if !(expected.contains(address) || before.contains(address)) {
            lemma_push_no_duplicates(before, address);
        }
        assert forall|a: Seq<char>| #[trigger]
            leaked(post_existing, expected).contains(a) <==> (post_existing.contains(a)
                && !expected.contains(a)) by {
            lemma_last_contains(post_existing, a);
            lemma_push_contains(before, address, a);
            assert(before.contains(a) <==> (rest.contains(a) && !expected.contains(a)));
        }
    }
}

/// What vanished is added to what was found, each address once.
proof fn lemma_with_vanished(
    wanted: Seq<Seq<char>>,
    post_existing: Seq<Seq<char>>,
    found: Seq<Seq<char>>,
)
    requires
        found.no_duplicates(),
    ensures
        with_vanished(wanted, post_existing, found).no_duplicates(),
        forall|a: Seq<char>| #[trigger]
            with_vanished(wanted, post_existing, found).contains(a) <==> (found.contains(a) || (
            wanted.contains(a) && !post_existing.contains(a))),
    decreases wanted.len(),
{
    if wanted.len() > 0 {
        let rest = wanted.drop_last();
        let before = with_vanished(rest, post_existing, found);
        let address = wanted.last();
        lemma_with_vanished(rest, post_existing, found);
        if !(post_existing.contains(address) || before.contains(address)) {
            lemma_push_no_duplicates(before, address);
        }
        assert forall|a: Seq<char>| #[trigger]
            with_vanished(wanted, post_existing, found).contains(a) <==> (found.contains(a) || (
            wanted.contains(a) && !post_existing.contains(a))) by {
            lemma_last_contains(wanted, a);
            lemma_push_contains(before, address, a);
            assert(before.contains(a) <==> (found.contains(a) || (rest.contains(a)
                && !post_existing.contains(a))));
        }
    }
}

/// The addresses to release are the symmetric difference of what is listed
/// and what is expected, each held once: whatever differs from the
/// expected state is released, and nothing else is.
pub proof fn lemma_release_plan_is_symmetric_difference(
    pre_existing: Seq<Seq<char>>,
    allocated: Seq<char>,
    post_existing: Seq<Seq<char>>,
)
    ensures
        is_release_plan(
            release_plan(pre_existing, allocated, post_existing),
            post_existing,
            expected_addresses(pre_existing, allocated),
        ),
{
    let expected = expected_addresses(pre_existing, allocated);
    let wanted = pre_existing.push(allocated);
    let found = leaked(post_existing, expected);
    let pending = release_plan(pre_existing, allocated, post_existing);
    lemma_leaked(post_existing, expected);
    lemma_with_vanished(wanted, post_existing, found);
    assert forall|a: Seq<char>| #[trigger]
        pending.contains(a) <==> is_redundant(a, post_existing, expected) by {
        lemma_push_contains(pre_existing, allocated, a);
        assert(found.contains(a) <==> (post_existing.contains(a) && !expected.contains(a)));
        assert(pending.contains(a) <==> (found.contains(a) || (wanted.contains(a)
            && !post_existing.contains(a))));
    }
}

/// Whether `text` stands in `list`.
pub fn list_has(list: &Vec<String>, text: &str) -> (found: bool)
    ensures
        found == list.deep_view().contains(text@),
{
    let mut i: usize = 0;
    while i < list.len()
        invariant
            i <= list.len(),
            forall|j: int| 0 <= j < i ==> list.deep_view()[j] != text@,
        decreases list.len() - i,
    {
        if same_text(list[i].as_str(), text) {
            assert(list.deep_view()[i as int] == text@);
            return true;
        }
        i += 1;
    }
    false
}

/// The addresses of `details`, in order.
pub fn addresses_of(details: &Vec<IpDetail>) -> (addresses: Vec<String>)
    ensures
        addresses.deep_view() == Seq::new(details@.len(), |i: int| details@[i].ip@),
{
    let mut addresses: Vec<String> = Vec::new();
    let mut i: usize = 0;
    while i < details.len()
        invariant
            i <= details.len(),
            addresses.len() == i,
            forall|j: int| 0 <= j < i ==> addresses@[j]@ == details@[j].ip@,
        decreases details.len() - i,
    {
        addresses.push(details[i].ip.clone());
        i += 1;
    }
    assert(addresses.deep_view() =~= Seq::new(details@.len(), |i: int| details@[i].ip@));
    addresses
}

/// The addresses to release after an allocation returned `allocated`, the
/// caller knew `pre_existing` before it, and the provider now lists
/// `post_existing`.
pub fn plan_releases(
    pre_existing: &Vec<String>,
    allocated: &str,
    post_existing: &Vec<String>,
) -> (pending: Vec<String>)
    ensures
        pending.deep_view() == release_plan(
            pre_existing.deep_view(),
            allocated@,
            post_existing.deep_view(),
        ),
{
    let ghost pre = pre_existing.deep_view();
    let ghost post = post_existing.deep_view();
    let ghost expected = expected_addresses(pre, allocated@);
    let mut pending: Vec<String> = Vec::new();
    let mut i: usize = 0;
    assert(post.take(0) =~= Seq::<Seq<char>>::empty());
    assert(pending.deep_view() =~= Seq::<Seq<char>>::empty());
    while i < post_existing.len()
        invariant
            i <= post_existing.len(),
            pre == pre_existing.deep_view(),
            post == post_existing.deep_view(),
            expected == expected_addresses(pre, allocated@),
            pending.deep_view() == leaked(post.take(i as int), expected),
        decreases post_existing.len() - i,
    {
        let address = post_existing[i].as_str();
        let ghost before = pending.deep_view();
        proof {
            assert(address@ == post[i as int]);
            assert(post.take(i + 1).drop_last() =~= post.take(i as int));
            assert(post.take(i + 1).last() == post[i as int]);
        }
        let wanted = list_has(pre_existing, address) || same_text(address, allocated);
        assert(wanted == expected.contains(address@));
        if !wanted && !list_has(&pending, address) {
            pending.push(String::from_str(address));
            assert(pending.deep_view() =~= before.push(address@));
        }
        i += 1;
    }
    assert(post.take(post.len() as int) =~= post);
    let ghost found = leaked(post, expected);
    let mut k: usize = 0;
    assert(pre.take(0) =~= Seq::<Seq<char>>::empty());
    while k < pre_existing.len()
        invariant
            k <= pre_existing.len(),
            pre == pre_existing.deep_view(),
            post == post_existing.deep_view(),
            pending.deep_view() == with_vanished(pre.take(k as int), post, found),
        decreases pre_existing.len() - k,
    {
        let address = pre_existing[k].as_str();
        let ghost before = pending.deep_view();
        proof {
            assert(address@ == pre[k as int]);
            assert(pre.take(k + 1).drop_last() =~= pre.take(k as int));
            assert(pre.take(k + 1).last() == pre[k as int]);
        }
        if !list_has(post_existing, address) && !list_has(&pending, address) {
            pending.push(String::from_str(address));
            assert(pending.deep_view() =~= before.push(address@));
        }
        k += 1;
    }
    let ghost before = pending.deep_view();
    proof {
        assert(pre.take(pre.len() as int) =~= pre);
        assert(pre.push(allocated@).drop_last() =~= pre);
        assert(pre.push(allocated@).last() == allocated@);
    }
    if !list_has(post_existing, allocated) && !list_has(&pending, allocated) {
        pending.push(String::from_str(allocated));
        assert(pending.deep_view() =~= before.push(allocated@));
    }
    pending
}

} // verus!
