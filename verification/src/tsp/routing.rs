//! Route learning with time-bounded validity, and single-hop forwarding.
//!
//! Time is counted in nanoseconds since the Unix epoch. Every operation
//! that depends on the time exists in two forms: one that is told the
//! time, and one that reads the clock and then does the same.

use vstd::prelude::*;
use vstd::string::StringExecFns;
use crate::tsp::error::TspError;
use crate::tsp::payload::{lemma_payload_round_trip, payload_bytes, payload_of_bytes};
use crate::tsp::string_map::StringMap;
use crate::tsp::types::{
    clone_route, opt_route_view, route_view, CryptoType, MessageType,
    ReceivedTspMessage, ReceivedTspMessageView, Route, SignatureType, TspPayload, TspPayloadView,
};

verus! {

/// Nanoseconds in one second.
pub const NANOS_PER_SEC: u128 = 1_000_000_000;

/// Default time to live of a learned route, in seconds.
pub const DEFAULT_TTL_SECS: u64 = 3600;

/// A route learned at `learned_at` is still valid at `now` under a time
/// to live of `ttl_secs`: the clock has not gone back, and fewer than
/// `ttl_secs` whole seconds have passed.
pub open spec fn fresh(learned_at: u128, now: u128, ttl_secs: u64) -> bool {
    now >= learned_at && (now - learned_at) / (NANOS_PER_SEC as int) < ttl_secs
}

/// Reads the system clock with `SystemTime::elapsed` on the Unix epoch,
/// as whole nanoseconds; `None` when the clock reads earlier than the
/// epoch. Nothing is promised of the value.
#[verifier::external_body]
fn clock_nanos() -> Option<u128> {
    std::time::UNIX_EPOCH.elapsed().ok().map(|d| d.as_nanos())
}

/// The time that a clock reading stands for: the reading itself, and
/// the epoch for a clock that reads earlier than the epoch.
pub open spec fn time_of(reading: Option<u128>) -> u128 {
    match reading {
        Some(t) => t,
        None => 0,
    }
}

/// Turns a clock reading into a time.
fn reading_time(reading: Option<u128>) -> (r: u128)
    ensures
        r == time_of(reading),
{
    match reading {
        Some(t) => t,
        None => 0,
    }
}

/// The current time: the time that the system clock's reading stands
/// for. Of the reading itself nothing is known, so any time can come
/// back.
pub(crate) fn now_nanos() -> u128 {
    reading_time(clock_nanos())
}

/// Mathematical value of a [`RouteEntry`].
pub struct RouteEntryView {
    pub vid: Seq<char>,
    pub hops: Seq<Seq<char>>,
    pub learned_at: u128,
}

/// A learned route to one destination.
#[derive(Debug)]
pub struct RouteEntry {
    /// The destination identifier.
    pub vid: String,
    /// Hops to traverse, next hop first.
    pub hops: Route,
    /// When the route was learned, in nanoseconds since the Unix epoch.
    pub learned_at: u128,
}

impl View for RouteEntry {
    type V = RouteEntryView;

    open spec fn view(&self) -> RouteEntryView {
        RouteEntryView {
            vid: self.vid@,
            hops: route_view(self.hops),
            learned_at: self.learned_at,
        }
    }
}

impl Clone for RouteEntry {
    fn clone(&self) -> (r: Self)
        ensures
            r@ == self@,
    {
        RouteEntry {
            vid: self.vid.clone(),
            hops: clone_route(&self.hops),
            learned_at: self.learned_at,
        }
    }
}

impl RouteEntry {
    /// An entry learned at the given time.
    pub fn learned(vid: String, hops: Route, learned_at: u128) -> (r: Self)
        ensures
            r.vid == vid,
            r.hops == hops,
            r.learned_at == learned_at,
    {
        RouteEntry { vid, hops, learned_at }
    }

    /// An entry learned now, by the system clock.
    pub fn new(vid: String, hops: Route) -> (r: Self)
        ensures
            r.vid == vid,
            r.hops == hops,
    {
        RouteEntry::learned(vid, hops, now_nanos())
    }

    /// Whether the entry is still valid at `now`.
    pub fn is_valid_at(&self, now: u128, ttl_secs: u64) -> (r: bool)
        ensures
            r == fresh(self.learned_at, now, ttl_secs),
    {
        if now < self.learned_at {
            false
        } else {
            (now - self.learned_at) / NANOS_PER_SEC < ttl_secs as u128
        }
    }

    /// Whether the entry is still valid now, by the system clock.
    pub fn is_valid(&self, ttl_secs: u64) -> (r: bool)
        ensures
            exists|now: u128| r == fresh(self.learned_at, now, ttl_secs),
    {
        let now = now_nanos();
        self.is_valid_at(now, ttl_secs)
    }
}

/// Mathematical value of a [`RouteTable`].
pub struct RouteTableView {
    pub routes: Map<Seq<char>, RouteEntryView>,
    pub ttl_secs: u64,
}

impl RouteTableView {
    /// The table after learning a route to `vid` at time `at`.
    pub open spec fn with_route(self, vid: Seq<char>, hops: Seq<Seq<char>>, at: u128) -> Self {
        RouteTableView {
            routes: self.routes.insert(vid, RouteEntryView { vid, hops, learned_at: at }),
            ttl_secs: self.ttl_secs,
        }
    }

    /// `vid` has an entry that is still valid at `now`.
    pub open spec fn has_fresh(self, vid: Seq<char>, now: u128) -> bool {
        self.routes.contains_key(vid) && fresh(self.routes[vid].learned_at, now, self.ttl_secs)
    }

    /// The hops to `vid` at time `now`: those of its entry, if it has one
    /// that is still valid.
    pub open spec fn lookup(self, vid: Seq<char>, now: u128) -> Option<Seq<Seq<char>>> {
        if self.has_fresh(vid, now) {
            Some(self.routes[vid].hops)
        } else {
            None
        }
    }

    /// The table without the entries that have expired at `now`.
    pub open spec fn swept(self, now: u128) -> Self {
        RouteTableView {
            routes: Map::new(
                |vid: Seq<char>| self.has_fresh(vid, now),
                |vid: Seq<char>| self.routes[vid],
            ),
            ttl_secs: self.ttl_secs,
        }
    }
}

/// Table of learned routes, each valid for a time to live.
#[derive(Debug)]
pub struct RouteTable {
    routes: StringMap<RouteEntry>,
    ttl_secs: u64,
}

impl View for RouteTable {
    type V = RouteTableView;

    closed spec fn view(&self) -> RouteTableView {
        RouteTableView {
            routes: Map::new(
                |vid: Seq<char>| self.routes@.contains_key(vid),
                |vid: Seq<char>| self.routes@[vid]@,
            ),
            ttl_secs: self.ttl_secs,
        }
    }
}

/// `listed` names exactly the destinations of `table` that are valid at
/// `now`, each once, with its hops.
pub open spec fn lists_fresh_routes(
    listed: Seq<(Seq<char>, Seq<Seq<char>>)>,
    table: RouteTableView,
    now: u128,
) -> bool {
    &&& forall|i: int|
        0 <= i < listed.len() ==> table.lookup((#[trigger] listed[i]).0, now) == Some(listed[i].1)
    &&& forall|i: int, j: int|
        0 <= i < j < listed.len() ==> (#[trigger] listed[i]).0 != (#[trigger] listed[j]).0
    &&& forall|vid: Seq<char>| #[trigger]
        table.has_fresh(vid, now) ==> exists|i: int|
            0 <= i < listed.len() && (#[trigger] listed[i]).0 == vid
}

/// A list of routes as a sequence of destination and hops.
pub open spec fn listing_view(listed: Vec<(String, Route)>) -> Seq<(Seq<char>, Seq<Seq<char>>)> {
    Seq::new(listed@.len(), |i: int| (listed@[i].0@, route_view(listed@[i].1)))
}

impl RouteTable {
    #[verifier::type_invariant]
    spec fn inv(self) -> bool {
        self.routes.wf()
    }

    /// Moves the parts out, leaving an empty table behind.
    fn take_parts(&mut self) -> (r: (StringMap<RouteEntry>, u64))
        ensures
            r.0 == old(self).routes,
            r.1 == old(self).ttl_secs,
            r.0.wf(),
    {
        proof {
            use_type_invariant(&*self);
        }
        let mut taken = RouteTable { routes: StringMap::new(), ttl_secs: 0 };
        core::mem::swap(self, &mut taken);
        let RouteTable { routes, ttl_secs } = taken;
        (routes, ttl_secs)
    }

    /// An empty table with the default time to live.
    pub fn new() -> (r: Self)
        ensures
            r@.routes == Map::<Seq<char>, RouteEntryView>::empty(),
            r@.ttl_secs == DEFAULT_TTL_SECS,
    {
        let r = RouteTable { routes: StringMap::new(), ttl_secs: DEFAULT_TTL_SECS };
        assert(r@.routes =~= Map::<Seq<char>, RouteEntryView>::empty());
        r
    }

    /// An empty table with the given time to live in seconds.
    pub fn with_ttl(ttl_secs: u64) -> (r: Self)
        ensures
            r@.routes == Map::<Seq<char>, RouteEntryView>::empty(),
            r@.ttl_secs == ttl_secs,
    {
        let r = RouteTable { routes: StringMap::new(), ttl_secs };
        assert(r@.routes =~= Map::<Seq<char>, RouteEntryView>::empty());
        r
    }

    /// Learns a route at the given time, replacing any earlier route to
    /// the same destination.
    pub fn add_route_at(&mut self, vid: String, hops: Route, at: u128)
        ensures
            final(self)@ == old(self)@.with_route(vid@, route_view(hops), at),
    {
        let (mut routes, ttl_secs) = self.take_parts();
        let entry = RouteEntry::learned(vid.clone(), hops, at);
        routes.insert(vid, entry);
        *self = RouteTable { routes, ttl_secs };
        assert(self@.routes =~= old(self)@.with_route(vid@, route_view(hops), at).routes);
    }

    /// Learns a route now, by the system clock.
    pub fn add_route(&mut self, vid: String, hops: Route)
        ensures
            exists|at: u128| final(self)@ == old(self)@.with_route(vid@, route_view(hops), at),
    {
        let at = now_nanos();
        self.add_route_at(vid, hops, at);
    }

    /// The hops to `vid` if a route is known and still valid at `now`.
    /// The table is not changed.
    pub fn get_route_at(&self, vid: &str, now: u128) -> (r: Option<Route>)
        ensures
            opt_route_view(r) == self@.lookup(vid@, now),
    {
        proof {
            use_type_invariant(self);
        }
        match self.routes.find(vid) {
            Some(i) => {
                proof {
                    self.routes.lemma_entries();
                }
                let entry = self.routes.value_at(i);
                if entry.is_valid_at(now, self.ttl_secs) {
                    Some(clone_route(&entry.hops))
                } else {
                    None
                }
            },
            None => None,
        }
    }

    /// The hops to `vid` if a route is known and still valid now, by the
    /// system clock.
    pub fn get_route(&self, vid: &str) -> (r: Option<Route>)
        ensures
            exists|now: u128| opt_route_view(r) == self@.lookup(vid@, now),
    {
        let now = now_nanos();
        self.get_route_at(vid, now)
    }

    /// Removes exactly the entries that have expired at `now`.
    pub fn cleanup_stale_routes_at(&mut self, now: u128)
        ensures
            final(self)@ == old(self)@.swept(now),
    {
        let (mut routes, ttl) = self.take_parts();
        let ghost before = routes@;
        let mut kept: StringMap<RouteEntry> = StringMap::new();
        loop
            invariant
                routes.wf(),
                kept.wf(),
                forall|k: Seq<char>| #[trigger]
                    routes@.contains_key(k) ==> before.contains_key(k) && before[k]
                        == routes@[k],
                forall|k: Seq<char>| #[trigger]
                    kept@.contains_key(k) ==> before.contains_key(k) && fresh(
                        before[k].learned_at,
                        now,
                        ttl,
                    ) && kept@[k] == before[k] && !routes@.contains_key(k),
                forall|k: Seq<char>|
                    before.contains_key(k) && fresh(before[k].learned_at, now, ttl)
                        ==> #[trigger] kept@.contains_key(k) || routes@.contains_key(k),
            ensures
                kept.wf(),
                forall|k: Seq<char>| #[trigger]
                    kept@.contains_key(k) <==> before.contains_key(k) && fresh(
                        before[k].learned_at,
                        now,
                        ttl,
                    ),
                forall|k: Seq<char>| #[trigger] kept@.contains_key(k) ==> kept@[k] == before[k],
            decreases routes.count(),
        {
            match routes.pop() {
                Some((key, entry)) => {
                    if entry.is_valid_at(now, ttl) {
                        kept.insert(key, entry);
                    }
                },
                None => {
                    proof {
                        routes.lemma_entries();
                        assert forall|k: Seq<char>| !routes@.contains_key(k) by {
                            if routes@.contains_key(k) {
                                assert(0 <= routes.position(k) < routes.count());
                            }
                        }
                    }
                    break ;
                },
            }
        }
        *self = RouteTable { routes: kept, ttl_secs: ttl };
        assert(self@.routes =~= old(self)@.swept(now).routes);
    }

    /// Removes the entries that have expired now, by the system clock.
    pub fn cleanup_stale_routes(&mut self)
        ensures
            exists|now: u128| final(self)@ == old(self)@.swept(now),
    {
        let now = now_nanos();
        self.cleanup_stale_routes_at(now);
    }

    /// Destination and hops of every route that is still valid at `now`.
    pub fn list_routes_at(&self, now: u128) -> (r: Vec<(String, Route)>)
        ensures
            lists_fresh_routes(listing_view(r), self@, now),
    {
        proof {
            use_type_invariant(self);
            self.routes.lemma_entries();
        }
        let mut out: Vec<(String, Route)> = Vec::new();
        let ghost mut origin: Seq<int> = Seq::empty();
        let mut i: usize = 0;
        let n = self.routes.len();
        while i < n
            invariant
                self.routes.wf(),
                n == self.routes.count(),
                i <= n,
                origin.len() == out@.len(),
                forall|a: int|
                    0 <= a < origin.len() ==> 0 <= #[trigger] origin[a] < i && out@[a].0@
                        == self.routes.key(origin[a]) && route_view(out@[a].1) == route_view(
                        self.routes.value(origin[a]).hops,
                    ) && fresh(self.routes.value(origin[a]).learned_at, now, self.ttl_secs),
                forall|a: int, b: int|
                    0 <= a < b < origin.len() ==> #[trigger] origin[a] < #[trigger] origin[b],
                forall|p: int|
                    0 <= p < i && fresh(self.routes.value(p).learned_at, now, self.ttl_secs)
                        ==> exists|a: int| 0 <= a < origin.len() && #[trigger] origin[a] == p,
            decreases n - i,
        {
            let entry = self.routes.value_at(i);
            if entry.is_valid_at(now, self.ttl_secs) {
                let key = self.routes.key_at(i).clone();
                out.push((key, clone_route(&entry.hops)));
                proof {
                    let ghost earlier = origin;
                    origin = origin.push(i as int);
                    assert forall|p: int|
                        0 <= p < i + 1 && fresh(
                            self.routes.value(p).learned_at,
                            now,
                            self.ttl_secs,
                        ) implies exists|a: int| 0 <= a < origin.len() && #[trigger] origin[a]
                        == p by {
                        if p < i {
                            let a = choose|a: int| 0 <= a < earlier.len() && earlier[a] == p;
                            assert(origin[a] == p);
                        } else {
                            assert(origin[earlier.len() as int] == p);
                        }
                    }
                }
            }
            i = i + 1;
        }
        proof {
            self.routes.lemma_entries();
            let listed = listing_view(out);
            let table = self@;
            assert forall|a: int| 0 <= a < listed.len() implies table.lookup(
                (#[trigger] listed[a]).0,
                now,
            ) == Some(listed[a].1) by {
                let p = origin[a];
                assert(self.routes@.contains_key(self.routes.key(p)));
            }
            assert forall|a: int, b: int| 0 <= a < b < listed.len() implies (#[trigger] listed[a]).0
                != (#[trigger] listed[b]).0 by {
                assert(origin[a] < origin[b]);
            }
            assert forall|vid: Seq<char>| #[trigger] table.has_fresh(vid, now) implies exists|
                a: int,
            |
                0 <= a < listed.len() && (#[trigger] listed[a]).0 == vid by {
                let p = self.routes.position(vid);
                assert(self.routes.key(p) == vid);
                let a = choose|a: int| 0 <= a < origin.len() && origin[a] == p;
                assert(listed[a].0 == vid);
            }
        }
        out
    }

    /// The time to live of a route, in seconds.
    pub fn ttl_secs(&self) -> (r: u64)
        ensures
            r == self@.ttl_secs,
    {
        self.ttl_secs
    }

    /// Destination and hops of every route that is still valid now, by
    /// the system clock.
    pub fn list_routes(&self) -> (r: Vec<(String, Route)>)
        ensures
            exists|now: u128| lists_fresh_routes(listing_view(r), self@, now),
    {
        let now = now_nanos();
        self.list_routes_at(now)
    }
}

impl Default for RouteTable {
    fn default() -> (r: Self)
        ensures
            r@.routes == Map::<Seq<char>, RouteEntryView>::empty(),
            r@.ttl_secs == DEFAULT_TTL_SECS,
    {
        RouteTable::new()
    }
}

/// A route learned at time `at` is found for as long as fewer than the
/// time to live's whole seconds have passed, and is absent from then on;
/// sweeping keeps an entry exactly when it is still valid.
pub proof fn lemma_route_expiry(
    table: RouteTableView,
    vid: Seq<char>,
    hops: Seq<Seq<char>>,
    at: u128,
    now: u128,
)
    requires
        now >= at,
    ensures
        (now - at) / (NANOS_PER_SEC as int) < table.ttl_secs ==> table.with_route(
            vid,
            hops,
            at,
        ).lookup(vid, now) == Some(hops),
        (now - at) / (NANOS_PER_SEC as int) >= table.ttl_secs ==> table.with_route(
            vid,
            hops,
            at,
        ).lookup(vid, now) is None,
        forall|other: Seq<char>|
            table.swept(now).routes.contains_key(other) <==> table.routes.contains_key(other)
                && fresh(table.routes[other].learned_at, now, table.ttl_secs),
        forall|other: Seq<char>|
            table.swept(now).routes.contains_key(other) ==> table.swept(now).routes[other]
                == table.routes[other],
        forall|other: Seq<char>| table.swept(now).lookup(other, now) == table.lookup(other, now),
{
}

/// The payload that carries `payload` onward after the first hop of
/// `route` has been taken.
pub open spec fn forwarded(route: Seq<Seq<char>>, payload: TspPayloadView) -> TspPayloadView {
    TspPayloadView::RoutedMessage {
        hops: route.subrange(1, route.len() as int),
        payload: payload_bytes(payload),
    }
}

/// Peels one hop off a route. An empty route is refused. Otherwise the
/// result is the first hop, to which the caller is to deliver, and the
/// serialized routed message that holds the remaining hops and the
/// serialized payload.
pub fn forward_message(_sender: &str, _receiver: &str, route: &Route, payload: &TspPayload) -> (r:
    Result<(String, Vec<u8>), TspError>)
    ensures
        match r {
            Ok((next_hop, message)) => {
                &&& route@.len() > 0
                &&& next_hop@ == route@[0]@
                &&& message@ == payload_bytes(forwarded(route_view(*route), payload@))
                &&& payload_of_bytes(message@) == Some(forwarded(route_view(*route), payload@))
            },
            Err(e) => route@.len() == 0 && e is InvalidRoute && e.detail() == "Route is empty"@,
        },
{
    if route.len() == 0 {
        return Err(TspError::InvalidRoute(String::from_str("Route is empty")));
    }
    let next_hop = route[0].clone();
    let payload_bytes = payload.to_bytes();
    let mut remaining_hops: Vec<String> = Vec::new();
    let mut i: usize = 1;
    while i < route.len()
        invariant
            1 <= i <= route.len(),
            remaining_hops@.len() == i - 1,
            forall|j: int| 0 <= j < i - 1 ==> remaining_hops@[j]@ == route@[j + 1]@,
        decreases route.len() - i,
    {
        remaining_hops.push(route[i].clone());
        i = i + 1;
    }
    assert(route_view(remaining_hops) =~= route_view(*route).subrange(1, route@.len() as int));
    let routed_payload = TspPayload::RoutedMessage {
        hops: remaining_hops,
        payload: payload_bytes,
    };
    let message = routed_payload.to_bytes();
    proof {
        lemma_payload_round_trip(routed_payload@);
    }
    Ok((next_hop, message))
}

/// How a routed message that has reached its final hop is handed on:
/// content is unwrapped, anything else is passed through as it came.
pub open spec fn delivered(sender: Seq<char>, payload: Seq<u8>, inner: TspPayloadView) -> ReceivedTspMessageView {
    ReceivedTspMessageView::GenericMessage {
        sender,
        receiver: None,
        message: match inner {
            TspPayloadView::Content(data) => data,
            _ => payload,
        },
        message_type: MessageType {
            crypto_type: CryptoType::Plaintext,
            signature_type: SignatureType::NoSignature,
        },
    }
}

/// Handles a routed message at this hop. With no hops left this is the
/// final hop and the payload is delivered. With hops left the message
/// would have to be forwarded, which is refused as an invalid route.
pub fn process_routed_message(sender: &str, hops: &Route, payload: &[u8]) -> (r: Result<
    ReceivedTspMessage,
    TspError,
>)
    ensures
        match r {
            Ok(received) => {
                &&& hops@.len() == 0
                &&& payload_of_bytes(payload@) matches Some(inner)
                &&& received@ == delivered(sender@, payload@, inner)
            },
            Err(e) => if hops@.len() > 0 {
                e is InvalidRoute && e.detail() == "Intermediate relay needs forwarding logic"@
            } else {
                payload_of_bytes(payload@) is None && e is MessageFormat && e.detail()
                    == "malformed payload"@
            },
        },
{
    if hops.len() == 0 {
        let inner_payload = match TspPayload::from_bytes(payload) {
            Ok(inner) => inner,
            Err(e) => { return Err(e); },
        };
        let message_type = MessageType {
            crypto_type: CryptoType::Plaintext,
            signature_type: SignatureType::NoSignature,
        };
        match inner_payload {
            TspPayload::Content(data) => Ok(
                ReceivedTspMessage::GenericMessage {
                    sender: sender.to_owned(),
                    receiver: None,
                    message: data,
                    message_type,
                },
            ),
            _ => Ok(
                ReceivedTspMessage::GenericMessage {
                    sender: sender.to_owned(),
                    receiver: None,
                    message: vstd::slice::slice_to_vec(payload),
                    message_type,
                },
            ),
        }
    } else {
        Err(TspError::InvalidRoute(String::from_str("Intermediate relay needs forwarding logic")))
    }
}

} // verus!
