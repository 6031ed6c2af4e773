//! Host-based service selection and health filtering.
use crate::text::{ends_with, has_suffix, str_eq};
use crate::types::{ConnectionInfo, ServiceRegistration};
use std::collections::HashMap;
use vstd::prelude::*;

verus! {

broadcast use vstd::std_specs::hash::group_hash_axioms;

/// A connection is healthy while its last heartbeat is less than this many
/// milliseconds old.
pub const HEALTHY_WINDOW_MS: u64 = 60_000;

/// A registration host of the form `*tail` matches every host ending in `tail`.
pub open spec fn wildcard_match(pattern: Seq<char>, host: Seq<char>) -> bool {
    pattern.len() > 0 && pattern[0] == '*' && has_suffix(host, pattern.skip(1))
}

/// A registration host matches exactly or as a wildcard.
pub open spec fn host_matches(pattern: Seq<char>, host: Seq<char>) -> bool {
    pattern == host || wildcard_match(pattern, host)
}

/// The connection `id` exists and its last heartbeat, not in the future, is
/// less than a minute before `now`.
pub open spec fn is_healthy(conns: Map<u128, ConnectionInfo>, id: u128, now: u64) -> bool {
    conns.contains_key(id) && conns[id].last_heartbeat <= now && now - conns[id].last_heartbeat
        < HEALTHY_WINDOW_MS
}

/// The index of the registration that host resolution picks for `host`:
/// the first exact match, failing that the first wildcard match.
pub open spec fn preferred_match(regs: Seq<ServiceRegistration>, host: Seq<char>) -> Option<int> {
    if exists|i: int| 0 <= i < regs.len() && regs[i].host@ == host {
        Some(
            choose|i: int|
                0 <= i < regs.len() && regs[i].host@ == host && forall|j: int|
                    0 <= j < i ==> regs[j].host@ != host,
        )
    } else if exists|i: int| 0 <= i < regs.len() && wildcard_match(regs[i].host@, host) {
        Some(
            choose|i: int|
                0 <= i < regs.len() && wildcard_match(regs[i].host@, host) && forall|j: int|
                    0 <= j < i ==> !wildcard_match(regs[j].host@, host),
        )
    } else {
        None
    }
}

/// Ids of the registrations that match `host` exactly (`exact`), or only as
/// a wildcard (`!exact`), in table order.
pub open spec fn ids_where(regs: Seq<ServiceRegistration>, host: Seq<char>, exact: bool) -> Seq<
    u128,
>
    decreases regs.len(),
{
    if regs.len() == 0 {
        seq![]
    } else {
        let prev = ids_where(regs.drop_last(), host, exact);
        let r = regs.last();
        let hit = if exact {
            r.host@ == host
        } else {
            r.host@ != host && wildcard_match(r.host@, host)
        };
        if hit {
            prev.push(r.id)
        } else {
            prev
        }
    }
}

/// The candidates for `host`: exact matches first, then wildcard matches.
pub open spec fn candidate_ids(regs: Seq<ServiceRegistration>, host: Seq<char>) -> Seq<u128> {
    ids_where(regs, host, true) + ids_where(regs, host, false)
}

/// Whether the registration host `pattern` is a wildcard matching `host`.
pub fn is_wildcard_match(pattern: &str, host: &str) -> (r: bool)
    ensures
        r == wildcard_match(pattern@, host@),
{
    let n = pattern.unicode_len();
    if n == 0 || pattern.get_char(0) != '*' {
        return false;
    }
    let tail = pattern.substring_char(1, n);
    assert(tail@ == pattern@.skip(1));
    ends_with(host, tail)
}

/// The first registration whose host equals `host`; failing that, the
/// first whose wildcard host matches it.
pub fn match_host_to_service<'a>(host: &str, registrations: &'a [ServiceRegistration]) -> (r:
    Option<&'a ServiceRegistration>)
    ensures
        match r {
            Some(x) => preferred_match(registrations@, host@) matches Some(i) && *x
                == registrations@[i],
            None => {
                &&& preferred_match(registrations@, host@) is None
                &&& forall|j: int|
                    0 <= j < registrations@.len() ==> !host_matches(
                        registrations@[j].host@,
                        host@,
                    )
            },
        },
{
    let n = registrations.len();
    let mut i: usize = 0;
    while i < n
        invariant
            n == registrations@.len(),
            i <= n,
            forall|j: int| 0 <= j < i ==> registrations@[j].host@ != host@,
        decreases n - i,
    {
        if str_eq(registrations[i].host.as_str(), host) {
            proof {
                let regs = registrations@;
                let c = choose|c: int|
                    0 <= c < regs.len() && regs[c].host@ == host@ && forall|j: int|
                        0 <= j < c ==> regs[j].host@ != host@;
                assert(0 <= i < regs.len() && regs[i as int].host@ == host@);
                if c < i {
                } else if c > i {
                    assert(regs[i as int].host@ != host@);
                }
                assert(c == i);
            }
            return Some(&registrations[i]);
        }
        i = i + 1;
    }
    let mut k: usize = 0;
    while k < n
        invariant
            n == registrations@.len(),
            k <= n,
            forall|j: int| 0 <= j < n ==> registrations@[j].host@ != host@,
            forall|j: int| 0 <= j < k ==> !wildcard_match(registrations@[j].host@, host@),
        decreases n - k,
    {
        if is_wildcard_match(registrations[k].host.as_str(), host) {
            proof {
                let regs = registrations@;
                assert(!(exists|i: int| 0 <= i < regs.len() && regs[i].host@ == host@));
                let c = choose|c: int|
                    0 <= c < regs.len() && wildcard_match(regs[c].host@, host@) && forall|j: int|
                        0 <= j < c ==> !wildcard_match(regs[j].host@, host@);
                assert(0 <= k < regs.len() && wildcard_match(regs[k as int].host@, host@));
                if c > k {
                    assert(!wildcard_match(regs[k as int].host@, host@));
                }
                assert(c == k);
            }
            return Some(&registrations[k]);
        }
        k = k + 1;
    }
    None
}

/// Whether connection `id` is healthy at time `now` (milliseconds).
pub fn is_connection_healthy(connections: &HashMap<u128, ConnectionInfo>, id: u128, now: u64) -> (r:
    bool)
    ensures
        r == is_healthy(connections@, id, now),
{
    match connections.get(&id) {
        Some(info) => info.last_heartbeat <= now && now - info.last_heartbeat < HEALTHY_WINDOW_MS,
        None => false,
    }
}

/// The first registration, in order, whose connection is healthy at `now`.
pub fn select_healthy_instance<'a>(
    registrations: &'a [ServiceRegistration],
    connections: &HashMap<u128, ConnectionInfo>,
    now: u64,
) -> (r: Option<&'a ServiceRegistration>)
    ensures
        match r {
            Some(x) => exists|i: int|
                0 <= i < registrations@.len() && *x == registrations@[i] && is_healthy(
                    connections@,
                    registrations@[i].id,
                    now,
                ) && forall|j: int|
                    0 <= j < i ==> !is_healthy(connections@, registrations@[j].id, now),
            None => forall|j: int|
                0 <= j < registrations@.len() ==> !is_healthy(
                    connections@,
                    registrations@[j].id,
                    now,
                ),
        },
{
    let n = registrations.len();
    let mut i: usize = 0;
    while i < n
        invariant
            n == registrations@.len(),
            i <= n,
            forall|j: int| 0 <= j < i ==> !is_healthy(connections@, registrations@[j].id, now),
        decreases n - i,
    {
        if is_connection_healthy(connections, registrations[i].id, now) {
            return Some(&registrations[i]);
        }
        i = i + 1;
    }
    None
}

/// The first candidate id, in order, whose connection is healthy at `now`.
pub fn select_healthy_id(candidates: &[u128], connections: &HashMap<u128, ConnectionInfo>, now: u64) -> (r:
    Option<u128>)
    ensures
        match r {
            Some(id) => exists|i: int|
                0 <= i < candidates@.len() && id == candidates@[i] && is_healthy(
                    connections@,
                    id,
                    now,
                ) && forall|j: int| 0 <= j < i ==> !is_healthy(connections@, candidates@[j], now),
            None => forall|j: int|
                0 <= j < candidates@.len() ==> !is_healthy(connections@, candidates@[j], now),
        },
{
    let n = candidates.len();
    let mut i: usize = 0;
    while i < n
        invariant
            n == candidates@.len(),
            i <= n,
            forall|j: int| 0 <= j < i ==> !is_healthy(connections@, candidates@[j], now),
        decreases n - i,
    {
        if is_connection_healthy(connections, candidates[i], now) {
            return Some(candidates[i]);
        }
        i = i + 1;
    }
    None
}

fn collect_ids(host: &str, registrations: &[ServiceRegistration], exact: bool) -> (r: Vec<u128>)
    ensures
        r@ == ids_where(registrations@, host@, exact),
{
    let n = registrations.len();
    let mut out: Vec<u128> = Vec::new();
    let mut i: usize = 0;
    while i < n
        invariant
            n == registrations@.len(),
            i <= n,
            out@ == ids_where(registrations@.subrange(0, i as int), host@, exact),
        decreases n - i,
    {
        let r = &registrations[i];
        let same = str_eq(r.host.as_str(), host);
        let hit = if exact {
            same
        } else {
            !same && is_wildcard_match(r.host.as_str(), host)
        };
        assert(registrations@.subrange(0, i + 1).drop_last() == registrations@.subrange(
            0,
            i as int,
        ));
        if hit {
            out.push(r.id);
        }
        i = i + 1;
    }
    assert(registrations@.subrange(0, n as int) == registrations@);
    out
}

/// The ids of all registrations matching `host`: exact matches first, in
/// table order, then wildcard matches.
pub fn candidate_services(host: &str, registrations: &[ServiceRegistration]) -> (r: Vec<u128>)
    ensures
        r@ == candidate_ids(registrations@, host@),
{
    let mut exact = collect_ids(host, registrations, true);
    let mut wild = collect_ids(host, registrations, false);
    exact.append(&mut wild);
    exact
}

/// A connection whose last heartbeat is sixty seconds old or more is not
/// healthy, so host resolution never selects it.
pub proof fn lemma_stale_heartbeat_disqualifies(conns: Map<u128, ConnectionInfo>, id: u128, now: u64)
    requires
        conns.contains_key(id),
        conns[id].last_heartbeat <= now,
        now - conns[id].last_heartbeat >= HEALTHY_WINDOW_MS,
    ensures
        !is_healthy(conns, id, now),
{
}

} // verus!
