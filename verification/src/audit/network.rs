//! Telemetry endpoints: the domain and address lists, and their reachability.
use vstd::prelude::*;

use crate::audit::appx::views;
use crate::text::{
    ascii_fold, ascii_lowercase, eq_ignore_ascii_case_spec, is_ascii_text, lowercase, occurs_at, owned,
    seq_contains, seq_starts_with, str_contains, str_starts_with, to_lowercase,
};

verus! {

/// Microsoft endpoints known to receive telemetry.
pub open spec fn telemetry_domains_spec() -> Seq<Seq<char>> {
    seq![
        "vortex.data.microsoft.com"@,
        "vortex-win.data.microsoft.com"@,
        "telecommand.telemetry.microsoft.com"@,
        "telemetry.microsoft.com"@,
        "watson.telemetry.microsoft.com"@,
        "watson.microsoft.com"@,
        "settings-win.data.microsoft.com"@,
        "settings.data.microsoft.com"@,
        "self.events.data.microsoft.com"@,
        "v10.events.data.microsoft.com"@,
        "v20.events.data.microsoft.com"@,
        "browser.events.data.msn.com"@,
        "arc.msn.com"@,
        "ris.api.iris.microsoft.com"@,
        "diagnostic.data.microsoft.com"@,
        "activity.windows.com"@,
        "data.microsoft.com"@,
        "dmd.metaservices.microsoft.com"@,
        "nw-umwatson.events.data.microsoft.com"@,
    ]
}

/// Microsoft address ranges used by telemetry, in CIDR notation.
pub open spec fn telemetry_ip_ranges_spec() -> Seq<Seq<char>> {
    seq![
        "13.64.0.0/11"@,
        "13.96.0.0/13"@,
        "13.104.0.0/14"@,
        "20.33.0.0/16"@,
        "20.40.0.0/13"@,
        "20.128.0.0/16"@,
        "40.74.0.0/15"@,
        "40.76.0.0/14"@,
        "40.96.0.0/12"@,
        "52.96.0.0/12"@,
        "52.112.0.0/14"@,
        "104.40.0.0/13"@,
    ]
}

/// Returns the list of telemetry domains, for blocking.
pub fn get_telemetry_domains() -> (r: Vec<&'static str>)
    ensures
        views(r@) == telemetry_domains_spec(),
{
    let r = vec![
        "vortex.data.microsoft.com",
        "vortex-win.data.microsoft.com",
        "telecommand.telemetry.microsoft.com",
        "telemetry.microsoft.com",
        "watson.telemetry.microsoft.com",
        "watson.microsoft.com",
        "settings-win.data.microsoft.com",
        "settings.data.microsoft.com",
        "self.events.data.microsoft.com",
        "v10.events.data.microsoft.com",
        "v20.events.data.microsoft.com",
        "browser.events.data.msn.com",
        "arc.msn.com",
        "ris.api.iris.microsoft.com",
        "diagnostic.data.microsoft.com",
        "activity.windows.com",
        "data.microsoft.com",
        "dmd.metaservices.microsoft.com",
        "nw-umwatson.events.data.microsoft.com",
    ];
    assert(views(r@) =~= telemetry_domains_spec());
    r
}

/// Returns the telemetry address ranges.
pub fn get_telemetry_ip_ranges() -> (r: Vec<&'static str>)
    ensures
        views(r@) == telemetry_ip_ranges_spec(),
{
    let r = vec![
        "13.64.0.0/11",
        "13.96.0.0/13",
        "13.104.0.0/14",
        "20.33.0.0/16",
        "20.40.0.0/13",
        "20.128.0.0/16",
        "40.74.0.0/15",
        "40.76.0.0/14",
        "40.96.0.0/12",
        "52.96.0.0/12",
        "52.112.0.0/14",
        "104.40.0.0/13",
    ];
    assert(views(r@) =~= telemetry_ip_ranges_spec());
    r
}

/// The lowercased domain contains the lowercased form of a listed domain.
pub open spec fn is_telemetry_domain_spec(domain: Seq<char>) -> bool {
    exists|i: int|
        0 <= i < telemetry_domains_spec().len() && #[trigger] seq_contains(
            lowercase(domain),
            lowercase(telemetry_domains_spec()[i]),
        )
}

/// The ASCII-lowercased domain contains the lowercased form of a listed
/// domain: what [`is_telemetry_domain`] answers for an ASCII domain.
pub open spec fn is_telemetry_ascii_domain(domain: Seq<char>) -> bool {
    exists|i: int|
        0 <= i < telemetry_domains_spec().len() && #[trigger] seq_contains(
            ascii_lowercase(domain),
            lowercase(telemetry_domains_spec()[i]),
        )
}

/// Whether a domain belongs to the telemetry list (ignoring case; a
/// subdomain of a listed domain belongs to it too).
pub fn is_telemetry_domain(domain: &str) -> (r: bool)
    ensures
        r == is_telemetry_domain_spec(domain@),
        is_ascii_text(domain@) ==> r == is_telemetry_ascii_domain(domain@),
{
    let lower = to_lowercase(domain);
    let list = get_telemetry_domains();
    let mut i: usize = 0;
    while i < list.len()
        invariant
            i <= list.len(),
            lower@ == lowercase(domain@),
            is_ascii_text(domain@) ==> lower@ == ascii_lowercase(domain@),
            views(list@) == telemetry_domains_spec(),
            forall|j: int|
                0 <= j < i ==> !#[trigger] seq_contains(
                    lowercase(domain@),
                    lowercase(telemetry_domains_spec()[j]),
                ),
        decreases list.len() - i,
    {
        let d: &str = list[i];
        let ld = to_lowercase(d);
        assert(telemetry_domains_spec()[i as int] == d@);
        if str_contains(lower.as_str(), ld.as_str()) {
            assert(seq_contains(lowercase(domain@), lowercase(telemetry_domains_spec()[i as int])));
            return true;
        }
        i = i + 1;
    }
    false
}

/// Two ASCII domains that differ only in the case of their letters get the
/// same answer from [`is_telemetry_domain`].
pub proof fn lemma_telemetry_ignores_ascii_case(a: Seq<char>, b: Seq<char>)
    requires
        is_ascii_text(a),
        is_ascii_text(b),
        eq_ignore_ascii_case_spec(a, b),
    ensures
        is_telemetry_ascii_domain(a) == is_telemetry_ascii_domain(b),
{
    assert(ascii_lowercase(a) =~= ascii_lowercase(b)) by {
        assert forall|i: int| 0 <= i < a.len() implies ascii_lowercase(a)[i] == ascii_lowercase(b)[i] by {
            assert(ascii_fold(a[i]) == ascii_fold(b[i]));
        }
    }
}

/// An ASCII domain that [`is_telemetry_domain`] accepts is still accepted
/// with any ASCII text added before and after it.
pub proof fn lemma_telemetry_survives_surrounding_text(p: Seq<char>, s: Seq<char>, q: Seq<char>)
    requires
        is_ascii_text(p),
        is_ascii_text(s),
        is_ascii_text(q),
        is_telemetry_ascii_domain(s),
    ensures
        is_ascii_text(p + s + q),
        is_telemetry_ascii_domain(p + s + q),
{
    let whole = p + s + q;
    assert forall|i: int| 0 <= i < whole.len() implies (#[trigger] whole[i] as u32) < 128 by {
        if i < p.len() {
            assert(whole[i] == p[i]);
        } else if i < p.len() + s.len() {
            assert(whole[i] == s[i - p.len()]);
        } else {
            assert(whole[i] == q[i - p.len() - s.len()]);
        }
    }
    let k = choose|k: int|
        0 <= k < telemetry_domains_spec().len() && #[trigger] seq_contains(
            ascii_lowercase(s),
            lowercase(telemetry_domains_spec()[k]),
        );
    let needle = lowercase(telemetry_domains_spec()[k]);
    let j = choose|j: int| #[trigger] occurs_at(ascii_lowercase(s), needle, j);
    assert(ascii_lowercase(whole) =~= ascii_lowercase(p) + ascii_lowercase(s) + ascii_lowercase(q));
    assert(ascii_lowercase(whole).subrange(p.len() + j, p.len() + j + needle.len()) =~= ascii_lowercase(
        s,
    ).subrange(j, j + needle.len()));
    assert(occurs_at(ascii_lowercase(whole), needle, p.len() + j));
    assert(seq_contains(ascii_lowercase(whole), lowercase(telemetry_domains_spec()[k])));
}

/// A telemetry endpoint and what it resolves to.
#[derive(Debug, Clone)]
pub struct TelemetryEndpoint {
    pub domain: String,
    pub resolved_ips: Vec<String>,
    pub is_blocked: bool,
}

/// Reachability of the telemetry endpoints.
#[derive(Debug, Clone)]
pub struct NetworkStatus {
    pub telemetry_endpoints: Vec<TelemetryEndpoint>,
    pub blocked_count: usize,
    pub reachable_count: usize,
}

/// An endpoint is blocked when it resolves to nothing, or to an address
/// that begins with `0.0.0.0` or `127.0.0.1`.
pub open spec fn blocked_spec(ips: Seq<String>) -> bool {
    ips.len() == 0 || exists|i: int| 0 <= i < ips.len() && #[trigger] sinkhole_address(ips[i]@)
}

/// An address that begins with `0.0.0.0` or `127.0.0.1`.
pub open spec fn sinkhole_address(ip: Seq<char>) -> bool {
    seq_starts_with(ip, "0.0.0.0"@) || seq_starts_with(ip, "127.0.0.1"@)
}

/// Whether an endpoint that resolved to `ips` is blocked.
pub fn is_blocked(ips: &Vec<String>) -> (r: bool)
    ensures
        r == blocked_spec(ips@),
{
    if ips.len() == 0 {
        return true;
    }
    let mut i: usize = 0;
    while i < ips.len()
        invariant
            i <= ips.len(),
            forall|j: int| 0 <= j < i ==> !#[trigger] sinkhole_address(ips@[j]@),
        decreases ips.len() - i,
    {
        let ip = ips[i].as_str();
        assert(ip@ == ips@[i as int]@);
        if str_starts_with(ip, "0.0.0.0") || str_starts_with(ip, "127.0.0.1") {
            assert(sinkhole_address(ips@[i as int]@));
            return true;
        }
        assert(!sinkhole_address(ips@[i as int]@));
        i = i + 1;
    }
    false
}

/// An endpoint is blocked exactly when it resolved to no address, or to an
/// address beginning with `127.0.0.1` (a hosts-file sinkhole) or with
/// `0.0.0.0`; any other answer means it is reachable.
pub proof fn lemma_blocked_iff_sinkholed(ips: Seq<String>)
    ensures
        blocked_spec(ips) <==> (ips.len() == 0 || exists|i: int|
            0 <= i < ips.len() && (seq_starts_with(#[trigger] ips[i]@, "127.0.0.1"@)
                || seq_starts_with(ips[i]@, "0.0.0.0"@))),
{
    if blocked_spec(ips) && ips.len() > 0 {
        let i = choose|i: int| 0 <= i < ips.len() && #[trigger] sinkhole_address(ips[i]@);
        assert(seq_starts_with(ips[i]@, "127.0.0.1"@) || seq_starts_with(ips[i]@, "0.0.0.0"@));
    }
    if ips.len() > 0 && exists|i: int|
        0 <= i < ips.len() && (seq_starts_with(#[trigger] ips[i]@, "127.0.0.1"@)
            || seq_starts_with(ips[i]@, "0.0.0.0"@)) {
        let i = choose|i: int|
            0 <= i < ips.len() && (seq_starts_with(#[trigger] ips[i]@, "127.0.0.1"@)
                || seq_starts_with(ips[i]@, "0.0.0.0"@));
        assert(sinkhole_address(ips[i]@));
    }
}

/// Adding an address to what an endpoint resolved to never unblocks it when
/// the added address is a sinkhole: one `127.0.0.1` or `0.0.0.0` answer is
/// enough to count the endpoint as blocked, whatever else it resolved to.
pub proof fn lemma_one_sinkhole_blocks(ips: Seq<String>, ip: String)
    requires
        seq_starts_with(ip@, "127.0.0.1"@) || seq_starts_with(ip@, "0.0.0.0"@),
    ensures
        blocked_spec(ips.push(ip)),
        blocked_spec(seq![ip] + ips),
{
    assert(ips.push(ip)[ips.len() as int] == ip);
    assert(sinkhole_address(ips.push(ip)[ips.len() as int]@));
    assert((seq![ip] + ips)[0] == ip);
    assert(sinkhole_address((seq![ip] + ips)[0]@));
}

/// The number of blocked entries among the first `k` resolutions.
pub open spec fn blocked_count_spec(res: Seq<Vec<String>>, k: int) -> nat
    decreases k,
{
    if k <= 0 {
        0
    } else {
        blocked_count_spec(res, k - 1) + if blocked_spec(res[k - 1]@) { 1nat } else { 0nat }
    }
}

/// Builds the reachability report from what each telemetry domain resolved
/// to, given in the order of `get_telemetry_domains`.
pub fn inspect_network(resolved: Vec<Vec<String>>) -> (r: NetworkStatus)
    requires
        resolved@.len() == telemetry_domains_spec().len(),
    ensures
        r.telemetry_endpoints@.len() == telemetry_domains_spec().len(),
        forall|i: int|
            0 <= i < r.telemetry_endpoints@.len() ==> {
                &&& (#[trigger] r.telemetry_endpoints@[i]).domain@ == telemetry_domains_spec()[i]
                &&& r.telemetry_endpoints@[i].resolved_ips@ == resolved@[i]@
                &&& r.telemetry_endpoints@[i].is_blocked == blocked_spec(resolved@[i]@)
            },
        r.blocked_count == blocked_count_spec(resolved@, resolved@.len() as int),
        r.blocked_count + r.reachable_count == telemetry_domains_spec().len(),
{
    let domains = get_telemetry_domains();
    let mut endpoints: Vec<TelemetryEndpoint> = Vec::new();
    let mut blocked: usize = 0;
    let mut reachable: usize = 0;
    let mut rest = resolved;
    let ghost all = rest@;
    // Consume the resolutions from the back, then restore their order.
    let mut k: usize = rest.len();
    let mut reversed: Vec<Vec<String>> = Vec::new();
    while k > 0
        invariant
            k == rest.len(),
            k <= all.len(),
            rest@ == all.subrange(0, k as int),
            reversed@.len() == all.len() - k,
            forall|j: int| 0 <= j < reversed@.len() ==> #[trigger] reversed@[j] == all[all.len() - 1 - j],
        decreases k,
    {
        let last = rest.pop().unwrap();
        reversed.push(last);
        k = k - 1;
    }
    let mut i: usize = 0;
    while i < domains.len()
        invariant
            i <= domains.len(),
            domains@.len() == all.len(),
            views(domains@) == telemetry_domains_spec(),
            reversed@.len() == all.len() - i,
            forall|j: int| 0 <= j < reversed@.len() ==> #[trigger] reversed@[j] == all[all.len() - 1 - j],
            endpoints@.len() == i,
            forall|j: int|
                0 <= j < i ==> {
                    &&& (#[trigger] endpoints@[j]).domain@ == telemetry_domains_spec()[j]
                    &&& endpoints@[j].resolved_ips@ == all[j]@
                    &&& endpoints@[j].is_blocked == blocked_spec(all[j]@)
                },
            blocked == blocked_count_spec(all, i as int),
            blocked + reachable == i,
        decreases domains.len() - i,
    {
        let ips = reversed.pop().unwrap();
        let is_blocked = is_blocked(&ips);
        if is_blocked {
            blocked = blocked + 1;
        } else {
            reachable = reachable + 1;
        }
        let d: &str = domains[i];
        assert(telemetry_domains_spec()[i as int] == d@);
        endpoints.push(TelemetryEndpoint { domain: owned(d), resolved_ips: ips, is_blocked });
        i = i + 1;
    }
    NetworkStatus { telemetry_endpoints: endpoints, blocked_count: blocked, reachable_count: reachable }
}

} // verus!
