//! Request routing: host resolution through a short-lived cache, health
//! filtering, and the table of pending requests that correlates responses
//! with the requests awaiting them. The waiting itself is done by the
//! caller, which hands the outcome back to `finish_wait`. `R` is the type
//! of a one-shot reply slot.
use crate::error::IngressError;
use crate::registry::DefaultRegistry;
use crate::routing::{candidate_ids, candidate_services, is_healthy, select_healthy_id};
use crate::text::str_eq;
use crate::types::ProxyResponse;
use std::collections::HashMap;
use vstd::prelude::*;
use vstd::utf8::encode_utf8;

verus! {

broadcast use vstd::std_specs::hash::group_hash_axioms;

/// Default request deadline, in milliseconds.
pub const DEFAULT_REQUEST_TIMEOUT_MS: u64 = 30_000;

/// Lifetime of a host cache entry, in milliseconds.
pub const CACHE_TTL_MS: u64 = 30_000;

/// A request awaiting its response: the slot to complete and the deadline.
pub struct PendingEntry<R> {
    pub slot: R,
    pub deadline: u64,
}

/// Cached candidates for one host, and when they were computed.
pub struct HostServiceCacheEntry {
    pub host: String,
    pub services: Vec<u128>,
    pub timestamp: u64,
}

/// What to do with a request after resolution.
pub enum RoutePlan {
    /// Answer at once with this response.
    Respond(ProxyResponse),
    /// Forward to the agent on this connection.
    Forward(u128),
}

/// How the wait for a forwarded request's response ended.
pub enum WaitOutcome {
    Responded(ProxyResponse),
    ChannelClosed,
    TimedOut,
}

/// A response arriving at `now` is still accepted for a deadline `deadline`.
pub open spec fn before_deadline(deadline: u64, now: u64) -> bool {
    now < deadline
}

/// A cache entry made at `timestamp` is fresh at `now`.
pub open spec fn is_fresh(timestamp: u64, now: u64) -> bool {
    timestamp <= now && now - timestamp < CACHE_TTL_MS
}

/// An error response carrying `message` as its body.
pub open spec fn is_error_response(r: ProxyResponse, id: u128, status: u16, message: Seq<char>) -> bool {
    &&& r.id == id
    &&& r.status_code == status
    &&& r.headers@.len() == 0
    &&& r.body matches Some(b) && b@ == encode_utf8(message)
}

/// The index of the cache entry for `host`, if any.
pub open spec fn cache_index(cache: Seq<HostServiceCacheEntry>, host: Seq<char>) -> Option<int> {
    if exists|i: int| 0 <= i < cache.len() && cache[i].host@ == host {
        Some(choose|i: int| 0 <= i < cache.len() && cache[i].host@ == host)
    } else {
        None
    }
}

/// The candidates that resolution yields: the cached list for `host` while
/// it is fresh at `now`, else the list computed from the registrations.
pub open spec fn resolved_candidates(
    cache: Seq<HostServiceCacheEntry>,
    regs: Seq<crate::types::ServiceRegistration>,
    host: Seq<char>,
    now: u64,
) -> Seq<u128> {
    let c = cache_index(cache, host);
    if c is Some && is_fresh(cache[c.unwrap()].timestamp, now) {
        cache[c.unwrap()].services@
    } else {
        candidate_ids(regs, host)
    }
}

pub struct DefaultRouter<R> {
    pub pending_requests: HashMap<u128, PendingEntry<R>>,
    pub request_timeout: u64,
    pub host_service_cache: Vec<HostServiceCacheEntry>,
    pub cache_ttl: u64,
}

/// Builds an error response whose body is `message`.
pub fn create_error_response(request_id: u128, status_code: u16, message: &str) -> (r: ProxyResponse)
    ensures
        is_error_response(r, request_id, status_code, message@),
{
    ProxyResponse {
        id: request_id,
        status_code,
        headers: Vec::new(),
        body: Some(message.as_bytes_vec()),
    }
}

impl<R> DefaultRouter<R> {
    /// Well-formed: host names are unique in the cache and entries keep the
    /// configured lifetime.
    pub open spec fn wf(&self) -> bool {
        &&& self.cache_ttl == CACHE_TTL_MS
        &&& forall|i: int, j: int|
            0 <= i < j < self.host_service_cache@.len() ==> self.host_service_cache@[i].host@
                != self.host_service_cache@[j].host@
    }

    /// A router whose requests time out after `request_timeout` milliseconds.
    pub fn new(request_timeout: u64) -> (r: Self)
        ensures
            r.wf(),
            r.request_timeout == request_timeout,
            r.pending_requests@ == Map::<u128, PendingEntry<R>>::empty(),
            r.host_service_cache@.len() == 0,
    {
        DefaultRouter {
            pending_requests: HashMap::new(),
            request_timeout,
            host_service_cache: Vec::new(),
            cache_ttl: CACHE_TTL_MS,
        }
    }

    fn cache_position(&self, host: &str) -> (r: Option<usize>)
        ensures
            match r {
                Some(i) => i < self.host_service_cache@.len() && self.host_service_cache@[i as int].host@
                    == host@,
                None => cache_index(self.host_service_cache@, host@) is None,
            },
    {
        let n = self.host_service_cache.len();
        let mut i: usize = 0;
        while i < n
            invariant
                n == self.host_service_cache@.len(),
                i <= n,
                forall|j: int| 0 <= j < i ==> self.host_service_cache@[j].host@ != host@,
            decreases n - i,
        {
            if str_eq(self.host_service_cache[i].host.as_str(), host) {
                return Some(i);
            }
            i = i + 1;
        }
        None
    }

    /// The candidate connection ids for `target_host`: the cached list while
    /// it is fresh, else the list computed from the registry's table, which
    /// is then cached with `now` as its time.
    pub fn find_matching_services<S>(&mut self, target_host: &str, registry: &DefaultRegistry<S>, now: u64) -> (r: Vec<u128>)
        requires
            old(self).wf(),
        ensures
            final(self).wf(),
            final(self).pending_requests == old(self).pending_requests,
            final(self).request_timeout == old(self).request_timeout,
            r@ == resolved_candidates(old(self).host_service_cache@, registry.registrations@, target_host@, now),
            match cache_index(final(self).host_service_cache@, target_host@) {
                Some(i) => final(self).host_service_cache@[i].services@ == r@,
                None => false,
            },
            ({
                let c = cache_index(old(self).host_service_cache@, target_host@);
                if c is Some && is_fresh(old(self).host_service_cache@[c.unwrap()].timestamp, now) {
                    final(self).host_service_cache == old(self).host_service_cache
                } else {
                    match cache_index(final(self).host_service_cache@, target_host@) {
                        Some(i) => final(self).host_service_cache@[i].timestamp == now,
                        None => false,
                    }
                }
            }),
    {
        let pos = self.cache_position(target_host);
        proof {
            if pos is Some {
                let i = pos.unwrap() as int;
                let c = cache_index(self.host_service_cache@, target_host@);
                assert(c is Some);
                assert(self.host_service_cache@[c.unwrap()].host@ == target_host@);
                assert(c.unwrap() == i);
            }
        }
        if let Some(i) = pos {
            let ts = self.host_service_cache[i].timestamp;
            if ts <= now && now - ts < self.cache_ttl {
                let cached = self.host_service_cache[i].services.clone();
                return cached;
            }
        }
        let services = candidate_services(target_host, registry.registrations.as_slice());
        let entry = HostServiceCacheEntry {
            host: crate::text::owned(target_host),
            services: services.clone(),
            timestamp: now,
        };
        let ghost before = self.host_service_cache@;
        match pos {
            Some(i) => {
                self.host_service_cache[i] = entry;
                proof {
                    let after = self.host_service_cache@;
                    assert(after[i as int].host@ == target_host@);
                    let c = cache_index(after, target_host@);
                    assert(c is Some);
                    assert(c.unwrap() == i as int);
                }
            },
            None => {
                self.host_service_cache.push(entry);
                proof {
                    let after = self.host_service_cache@;
                    let n = before.len() as int;
                    assert(after[n].host@ == target_host@);
                    let c = cache_index(after, target_host@);
                    assert(c is Some);
                    assert(forall|j: int| 0 <= j < n ==> before[j].host@ != target_host@);
                    assert(c.unwrap() == n);
                }
            },
        }
        services
    }

    /// Resolves a request: 404 when no registration matches its host, 503
    /// when none of the candidates is healthy at `now`, else the connection
    /// to forward to (the first healthy candidate).
    pub fn plan_route<S>(&mut self, request_id: u128, target_host: &str, registry: &DefaultRegistry<S>, now: u64) -> (r: RoutePlan)
        requires
            old(self).wf(),
        ensures
            final(self).wf(),
            final(self).pending_requests == old(self).pending_requests,
            final(self).request_timeout == old(self).request_timeout,
            ({
                let cands = resolved_candidates(old(self).host_service_cache@, registry.registrations@, target_host@, now);
                match r {
                    RoutePlan::Respond(resp) => if cands.len() == 0 {
                        is_error_response(resp, request_id, 404, "Service Not Found"@)
                    } else {
                        &&& forall|j: int| 0 <= j < cands.len() ==> !is_healthy(registry.connections@, cands[j], now)
                        &&& is_error_response(resp, request_id, 503, "No healthy service available"@)
                    },
                    RoutePlan::Forward(c) => exists|i: int|
                        0 <= i < cands.len() && cands[i] == c && is_healthy(registry.connections@, c, now)
                            && forall|j: int| 0 <= j < i ==> !is_healthy(registry.connections@, cands[j], now),
                }
            }),
    {
        let candidates = self.find_matching_services(target_host, registry, now);
        if candidates.len() == 0 {
            return RoutePlan::Respond(create_error_response(request_id, 404, "Service Not Found"));
        }
        match select_healthy_id(candidates.as_slice(), &registry.connections, now) {
            Some(c) => RoutePlan::Forward(c),
            None => RoutePlan::Respond(
                create_error_response(request_id, 503, "No healthy service available"),
            ),
        }
    }

    /// Installs the pending entry of a request about to be forwarded, with
    /// its deadline `now + request_timeout`.
    pub fn begin_forward(&mut self, request_id: u128, slot: R, now: u64)
        requires
            now + old(self).request_timeout <= u64::MAX,
        ensures
            final(self).pending_requests@ == old(self).pending_requests@.insert(
                request_id,
                PendingEntry { slot, deadline: (now + old(self).request_timeout) as u64 },
            ),
            final(self).request_timeout == old(self).request_timeout,
            final(self).host_service_cache == old(self).host_service_cache,
            final(self).cache_ttl == old(self).cache_ttl,
    {
        let deadline = now + self.request_timeout;
        self.pending_requests.insert(request_id, PendingEntry { slot, deadline });
    }

    /// The forward could not be sent: the pending entry goes and the caller
    /// gets a 503.
    pub fn forward_failed(&mut self, request_id: u128) -> (r: ProxyResponse)
        ensures
            final(self).pending_requests@ == old(self).pending_requests@.remove(request_id),
            final(self).request_timeout == old(self).request_timeout,
            final(self).host_service_cache == old(self).host_service_cache,
            final(self).cache_ttl == old(self).cache_ttl,
            is_error_response(r, request_id, 503, "Service Unavailable"@),
    {
        self.pending_requests.remove(&request_id);
        create_error_response(request_id, 503, "Service Unavailable")
    }

    /// Ends the wait for a forwarded request: its pending entry is gone
    /// afterwards, and the caller gets the response, a 504 on timeout, or a
    /// 503 when the reply slot was dropped.
    pub fn finish_wait(&mut self, request_id: u128, outcome: WaitOutcome) -> (r: ProxyResponse)
        ensures
            final(self).pending_requests@ == old(self).pending_requests@.remove(request_id),
            final(self).request_timeout == old(self).request_timeout,
            final(self).host_service_cache == old(self).host_service_cache,
            final(self).cache_ttl == old(self).cache_ttl,
            match outcome {
                WaitOutcome::Responded(resp) => r == resp,
                WaitOutcome::ChannelClosed => is_error_response(r, request_id, 503, "Service Unavailable"@),
                WaitOutcome::TimedOut => is_error_response(r, request_id, 504, "Gateway Timeout"@),
            },
    {
        self.pending_requests.remove(&request_id);
        match outcome {
            WaitOutcome::Responded(resp) => resp,
            WaitOutcome::ChannelClosed => create_error_response(request_id, 503, "Service Unavailable"),
            WaitOutcome::TimedOut => create_error_response(request_id, 504, "Gateway Timeout"),
        }
    }

    /// Matches a response arriving at `now` to its pending request. The
    /// entry, if any, is removed; its slot is handed back with the response
    /// only while the deadline has not been reached. Otherwise the response
    /// is discarded: `None`, which is not an error.
    pub fn handle_response(&mut self, response: ProxyResponse, now: u64) -> (r: Option<(R, ProxyResponse)>)
        ensures
            final(self).pending_requests@ == old(self).pending_requests@.remove(response.id),
            !old(self).pending_requests@.contains_key(response.id) ==> final(self).pending_requests@
                == old(self).pending_requests@,
            final(self).request_timeout == old(self).request_timeout,
            final(self).host_service_cache == old(self).host_service_cache,
            final(self).cache_ttl == old(self).cache_ttl,
            match r {
                Some((slot, resp)) => {
                    &&& old(self).pending_requests@.contains_key(response.id)
                    &&& before_deadline(old(self).pending_requests@[response.id].deadline, now)
                    &&& slot == old(self).pending_requests@[response.id].slot
                    &&& resp == response
                },
                None => !old(self).pending_requests@.contains_key(response.id) || !before_deadline(
                    old(self).pending_requests@[response.id].deadline,
                    now,
                ),
            },
    {
        let ghost before = self.pending_requests@;
        let id = response.id;
        let removed = self.pending_requests.remove(&id);
        proof {
            if !before.contains_key(id) {
                assert(before.remove(id) =~= before);
            }
        }
        match removed {
            Some(entry) => {
                if now < entry.deadline {
                    Some((entry.slot, response))
                } else {
                    None
                }
            },
            None => None,
        }
    }

    /// Installs the pending entry of a request to be forwarded on
    /// `connection_id`, and gives the sender to forward it on. Without a
    /// sender nothing is installed and the caller answers with
    /// `forward_failed`'s 503.
    pub fn begin_forward_on<'a, S>(
        &mut self,
        request_id: u128,
        slot: R,
        connection_id: u128,
        registry: &'a DefaultRegistry<S>,
        now: u64,
    ) -> (r: Option<&'a S>)
        requires
            now + old(self).request_timeout <= u64::MAX,
        ensures
            final(self).request_timeout == old(self).request_timeout,
            final(self).host_service_cache == old(self).host_service_cache,
            final(self).cache_ttl == old(self).cache_ttl,
            match r {
                Some(s) => {
                    &&& registry.connection_senders@.contains_key(connection_id)
                    &&& *s == registry.connection_senders@[connection_id]
                    &&& final(self).pending_requests@ == old(self).pending_requests@.insert(
                        request_id,
                        PendingEntry { slot, deadline: (now + old(self).request_timeout) as u64 },
                    )
                },
                None => {
                    &&& !registry.connection_senders@.contains_key(connection_id)
                    &&& final(self).pending_requests == old(self).pending_requests
                },
            },
    {
        match registry.get_connection_sender(connection_id) {
            Some(s) => {
                self.begin_forward(request_id, slot, now);
                Some(s)
            },
            None => None,
        }
    }

    /// Whether a request is awaiting its response.
    pub fn is_pending(&self, request_id: u128) -> (r: bool)
        ensures
            r == self.pending_requests@.contains_key(request_id),
    {
        self.pending_requests.contains_key(&request_id)
    }
}

impl<R> Default for DefaultRouter<R> {
    /// A router with the default thirty-second deadline.
    fn default() -> (r: Self)
        ensures
            r.wf(),
            r.request_timeout == DEFAULT_REQUEST_TIMEOUT_MS,
            r.pending_requests@ == Map::<u128, PendingEntry<R>>::empty(),
            r.host_service_cache@.len() == 0,
    {
        Self::new(DEFAULT_REQUEST_TIMEOUT_MS)
    }
}

/// The pending entry of a request leaves the table exactly once: each of
/// the three paths that end a wait (response, deadline, failed send) leaves
/// the table without it, and a later path then finds nothing to remove.
pub proof fn lemma_pending_removed_once<R>(pending: Map<u128, PendingEntry<R>>, request_id: u128)
    ensures
        !pending.remove(request_id).contains_key(request_id),
        pending.remove(request_id).remove(request_id) == pending.remove(request_id),
        forall|other: u128| other != request_id ==> (#[trigger] pending.remove(request_id).contains_key(other)
            <==> pending.contains_key(other)),
{
    assert(pending.remove(request_id).remove(request_id) =~= pending.remove(request_id));
}

/// A forwarded request leaves the pending table as it found it: its entry
/// is installed before the forward and removed when the wait ends, and no
/// other entry is touched.
pub proof fn lemma_forward_then_finish_restores<R>(
    pending: Map<u128, PendingEntry<R>>,
    request_id: u128,
    entry: PendingEntry<R>,
)
    requires
        !pending.contains_key(request_id),
    ensures
        pending.insert(request_id, entry).contains_key(request_id),
        pending.insert(request_id, entry).remove(request_id) == pending,
{
    assert(pending.insert(request_id, entry).remove(request_id) =~= pending);
}

/// For a request forwarded at `start` with deadline `start + timeout`: a
/// response arriving at the deadline, or one millisecond after it, is
/// refused, and one arriving a millisecond before it is accepted.
pub proof fn lemma_deadline_boundary(start: u64, timeout: u64)
    requires
        start + timeout + 1 <= u64::MAX,
    ensures
        !before_deadline((start + timeout) as u64, (start + timeout) as u64),
        !before_deadline((start + timeout) as u64, (start + timeout + 1) as u64),
        timeout > 0 ==> before_deadline((start + timeout) as u64, (start + timeout - 1) as u64),
{
}

} // verus!
