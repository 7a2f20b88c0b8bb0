//! The freshness cache for live trips: given trip ids, it serves the snapshots that
//! the store holds and that are fresh enough, has the others fetched from upstream,
//! joins them with what is known of their routes, and has them stored.
//!
//! The cache makes no round trip itself. A reconciliation goes through four
//! states; each says what is to be asked of the store or of upstream, and takes
//! the answer: [`CacheLookup`], [`Refresh`], [`AreaLookup`], [`Persist`].
//!
//! A reconciliation ends with a snapshot for every trip that was asked for, or
//! with one failure. A failed request to upstream, or an answer of upstream that
//! leaves a trip out, ends it with a failure before anything is stored: the store
//! keeps the snapshots that it held, with their old times, so the trips are fetched
//! again on the next call. A trip whose route the store does not know gets a
//! snapshot without a classification.

use vstd::prelude::*;
use bson::{Bson, Document};
use crate::clock::{now_millis, whole_seconds};
use crate::config::{ApiConfig, RoutingConfig};
use crate::data::{AreaType, BrussType, FromTT, Trip};
use crate::document::{
    append, bson_array, bson_doc, bson_i32, bson_i64, bson_str, entries, one, one_of, single, value,
    values, Entries, Value,
};
use crate::query::{BackendError, DBQuery};
use crate::requester::{ParallelRequester, RequesterView};
use crate::text::{all_different, dedup, distinct, has_name, has_text, lemma_distinct, split, split_at, texts};
use crate::tt::{TTError, TTTrip};

verus! {

/// The live status of one trip.
#[derive(Debug)]
pub struct TripTracking {
    pub id: String,
    /// The delay in seconds; negative when the trip runs early.
    pub delay: i32,
    pub last_stop: Option<u16>,
    pub next_stop: Option<u16>,
    /// The classification of the trip's route, where the route is known.
    pub area: Option<AreaType>,
    pub bus_id: Option<u16>,
    /// When upstream last heard of the trip, in milliseconds since the Unix epoch.
    pub last_event: Option<i64>,
}

impl TripTracking {
    /// The status of a trip of which nothing is known but its id.
    pub fn error(id: String) -> (t: Self)
        ensures
            t == (TripTracking {
                id,
                delay: 0,
                last_stop: None,
                next_stop: None,
                area: None,
                bus_id: None,
                last_event: None,
            }),
    {
        Self {
            id,
            delay: 0,
            last_stop: None,
            next_stop: None,
            area: None,
            bus_id: None,
            last_event: None,
        }
    }

    /// The status that upstream reported for a trip, with the classification of
    /// its route.
    pub fn from_trip(area: Option<AreaType>, trip: Trip) -> (t: Self)
        ensures
            t == snapshot(area, trip),
    {
        Self {
            id: trip.id,
            delay: trip.delay,
            last_stop: trip.last_stop,
            next_stop: trip.next_stop,
            area,
            bus_id: trip.bus_id,
            last_event: trip.last_event,
        }
    }
}

/// The status that `trip` and the classification of its route make.
pub open spec fn snapshot(area: Option<AreaType>, trip: Trip) -> TripTracking {
    TripTracking {
        id: trip.id,
        delay: trip.delay,
        last_stop: trip.last_stop,
        next_stop: trip.next_stop,
        area,
        bus_id: trip.bus_id,
        last_event: trip.last_event,
    }
}

/// The trip ids of a request.
#[derive(Debug)]
pub struct TripIds(pub Vec<String>);

/// The strings of `names` as BSON values.
pub open spec fn text_values(names: Seq<String>) -> Seq<Value> {
    names.map_values(|s: String| Value::Text(s@))
}

impl TripIds {
    /// The ids of a request parameter, which lists them with commas between.
    pub fn from_param(param: &str) -> (ids: Self)
        ensures
            texts(ids.0@) == split(param@, ','),
    {
        TripIds(split_at(param, ','))
    }
}

fn names_array(names: &Vec<String>) -> (b: Bson)
    ensures
        value(b) == Value::Array(text_values(names@)),
{
    let mut items: Vec<Bson> = Vec::new();
    let mut i: usize = 0;
    while i < names.len()
        invariant
            i <= names.len(),
            values(items@) == text_values(names@.subrange(0, i as int)),
        decreases names.len() - i,
    {
        let ghost before = items@;
        items.push(bson_str(names[i].as_str()));
        assert(values(items@) =~= values(before).push(Value::Text(names@[i as int]@)));
        i += 1;
    }
    assert(names@.subrange(0, names.len() as int) =~= names@);
    bson_array(items)
}

impl DBQuery for TripIds {
    open spec fn filter(self) -> Entries {
        one("id"@, one_of(text_values(self.0@)))
    }

    fn to_doc(self) -> (d: Document) {
        single("id", bson_doc(single("$in", names_array(&self.0))))
    }
}

/// A snapshot of a trip's live status as the store holds it, with the time at which
/// it was taken.
#[derive(Debug)]
pub struct TripUpdate {
    pub tracking: TripTracking,
    /// When the snapshot was taken, in seconds since the Unix epoch.
    pub updated: i64,
}

impl BrussType for TripUpdate {
    open spec fn collection_name() -> Seq<char> {
        "trip_updates"@
    }

    fn collection() -> (name: &'static str) {
        "trip_updates"
    }
}

impl TripUpdate {
    /// The status without the time.
    pub fn into_tracking(self) -> (t: TripTracking)
        ensures
            t == self.tracking,
    {
        self.tracking
    }

    /// The filter that finds the stored snapshot which this one replaces.
    pub fn upsert_filter(&self) -> (d: Document)
        ensures
            entries(d) == one("id"@, Value::Text(self.tracking.id@)),
    {
        single("id", bson_str(self.tracking.id.as_str()))
    }
}

/// Why a reconciliation ended without a result.
#[derive(Debug)]
pub enum TrackingError {
    /// The store failed.
    Backend(BackendError),
    /// A request to upstream failed.
    Upstream(TTError),
    /// Upstream answered, but sent nothing for these trips.
    Unanswered(Vec<String>),
}

/// What is said of a reconciliation in which upstream left trips out.
pub open spec fn unanswered_text() -> Seq<char> {
    "upstream left trips unanswered"@
}

impl TrackingError {
    /// The text of the failure: that of the store or of upstream, or that upstream
    /// left trips out.
    pub open spec fn text(&self) -> Seq<char> {
        match self {
            TrackingError::Backend(e) => e.text(),
            TrackingError::Upstream(e) => e.text(),
            TrackingError::Unanswered(_) => unanswered_text(),
        }
    }

    pub fn message(&self) -> (m: String)
        ensures
            m@ == self.text(),
    {
        match self {
            TrackingError::Backend(e) => e.message().to_owned(),
            TrackingError::Upstream(e) => e.message().to_owned(),
            TrackingError::Unanswered(_) => String::from_str("upstream left trips unanswered"),
        }
    }
}

/// A snapshot taken at `updated` is fresh at `now`: it is younger than `max_age`
/// seconds.
pub open spec fn fresh(updated: i64, now: i64, max_age: u64) -> bool {
    updated > now - max_age
}

/// The time after which a snapshot must have been taken to be fresh at `now`, as
/// far as `i64` can hold it.
pub open spec fn threshold(now: i64, max_age: u64) -> i64 {
    if now - max_age < i64::MIN {
        i64::MIN
    } else {
        (now - max_age) as i64
    }
}

/// The ids of the trips that `records` are about, in order.
pub open spec fn record_ids(records: Seq<TripUpdate>) -> Seq<String> {
    records.map_values(|r: TripUpdate| r.tracking.id)
}

/// The ids of `trips`, in order.
pub open spec fn trip_ids(trips: Seq<Trip>) -> Seq<String> {
    trips.map_values(|t: Trip| t.id)
}

/// The snapshots of `cached` that are served as they are: those of a trip that is
/// asked for, fresh at `now`; where `cached` holds several such of one trip, the
/// last of them. They stand in the reverse of their order in `cached`.
pub open spec fn served(ids: Seq<String>, cached: Seq<TripUpdate>, now: i64, max_age: u64) -> Seq<
    TripUpdate,
>
    decreases cached.len(),
{
    if cached.len() == 0 {
        Seq::empty()
    } else {
        let later = served(ids, cached.drop_first(), now, max_age);
        let r = cached[0];
        if has_text(ids, r.tracking.id@) && fresh(r.updated, now, max_age) && !has_text(
            record_ids(later),
            r.tracking.id@,
        ) {
            later.push(r)
        } else {
            later
        }
    }
}

/// The names of `ids` that none of `have` has the text of, in order.
pub open spec fn without(ids: Seq<String>, have: Seq<String>) -> Seq<String>
    decreases ids.len(),
{
    if ids.len() == 0 {
        Seq::empty()
    } else {
        let before = without(ids.drop_last(), have);
        if has_text(have, ids.last()@) {
            before
        } else {
            before.push(ids.last())
        }
    }
}

/// The trips that upstream answered with and that are used: those that were asked
/// for, the first of each id.
pub open spec fn answered(missing: Seq<String>, answers: Seq<TTTrip>) -> Seq<Trip>
    decreases answers.len(),
{
    if answers.len() == 0 {
        Seq::empty()
    } else {
        let before = answered(missing, answers.drop_last());
        let a = answers.last();
        if has_text(missing, a.id@) && !has_text(trip_ids(before), a.id@) {
            before.push(upstream_trip(a))
        } else {
            before
        }
    }
}

/// The trip that an upstream payload becomes.
pub open spec fn upstream_trip(a: TTTrip) -> Trip {
    Trip {
        id: a.id,
        route: a.route,
        delay: a.delay,
        last_stop: a.last_stop,
        next_stop: a.next_stop,
        bus_id: a.bus_id,
        last_event: a.last_event,
    }
}

/// The routes of `trips`, each once, in the order in which they first occur.
pub open spec fn routes_of(trips: Seq<Trip>) -> Seq<u16>
    decreases trips.len(),
{
    if trips.len() == 0 {
        Seq::empty()
    } else {
        let before = routes_of(trips.drop_last());
        if before.contains(trips.last().route) {
            before
        } else {
            before.push(trips.last().route)
        }
    }
}

/// The classification that `areas` gives for `route`; where it gives several, the
/// last one; `None` where it gives none.
pub open spec fn area_of(areas: Seq<(u16, AreaType)>, route: u16) -> Option<AreaType>
    decreases areas.len(),
{
    if areas.len() == 0 {
        None
    } else if areas.last().0 == route {
        Some(areas.last().1)
    } else {
        area_of(areas.drop_last(), route)
    }
}

/// The snapshots that the refreshed trips become: each with the classification of
/// its route, taken at `now`.
pub open spec fn refreshed(trips: Seq<Trip>, areas: Seq<(u16, AreaType)>, now: i64) -> Seq<
    TripUpdate,
> {
    trips.map_values(
        |t: Trip| TripUpdate { tracking: snapshot(area_of(areas, t.route), t), updated: now },
    )
}

/// The routes as 32-bit integers, as the store holds their ids.
pub open spec fn route_values(routes: Seq<u16>) -> Seq<Value> {
    routes.map_values(|r: u16| Value::Int32(r as i32))
}

/// The first state of a reconciliation: the snapshots of the trips are to be read
/// from the store.
pub struct CacheLookup {
    ids: Vec<String>,
    now: i64,
    max_age: u64,
}

/// The second state: the trips without a fresh snapshot are to be fetched from
/// upstream.
pub struct Refresh {
    now: i64,
    served: Vec<TripUpdate>,
    missing: Vec<String>,
}

/// The third state: the classifications of the refreshed trips' routes are to be
/// read from the store.
pub struct AreaLookup {
    now: i64,
    served: Vec<TripUpdate>,
    trips: Vec<Trip>,
    routes: Vec<u16>,
}

/// The last state: the refreshed snapshots are to be stored.
pub struct Persist {
    served: Vec<TripUpdate>,
    refreshed: Vec<TripUpdate>,
}

fn is_fresh(updated: i64, now: i64, max_age: u64) -> (b: bool)
    ensures
        b == fresh(updated, now, max_age),
{
    updated as i128 > now as i128 - max_age as i128
}

fn fresh_after(now: i64, max_age: u64) -> (t: i64)
    ensures
        t == threshold(now, max_age),
{
    let t: i128 = now as i128 - max_age as i128;
    if t < i64::MIN as i128 {
        i64::MIN
    } else {
        t as i64
    }
}

/// The names of `ids` that none of `have` has the text of.
fn names_without(ids: &Vec<String>, have: &Vec<String>) -> (out: Vec<String>)
    ensures
        out@ == without(ids@, have@),
{
    let mut out: Vec<String> = Vec::new();
    let mut i: usize = 0;
    while i < ids.len()
        invariant
            i <= ids.len(),
            out@ == without(ids@.subrange(0, i as int), have@),
        decreases ids.len() - i,
    {
        proof {
            let upto = ids@.subrange(0, i + 1);
            assert(upto.drop_last() =~= ids@.subrange(0, i as int));
        }
        if !has_name(have, ids[i].as_str()) {
            out.push(ids[i].clone());
        }
        i += 1;
    }
    assert(ids@.subrange(0, ids.len() as int) =~= ids@);
    out
}

impl CacheLookup {
    /// The ids that are reconciled: those asked for, each once.
    pub closed spec fn ids(&self) -> Seq<String> {
        self.ids@
    }

    /// The time of the reconciliation, in seconds since the Unix epoch.
    pub closed spec fn now(&self) -> i64 {
        self.now
    }

    /// The age in seconds below which a snapshot is served as it is.
    pub closed spec fn max_age(&self) -> u64 {
        self.max_age
    }

    /// Starts a reconciliation of `ids` at the present time.
    pub fn start(ids: Vec<String>, config: &ApiConfig) -> (s: Self)
        ensures
            s.ids() == distinct(ids@),
            s.max_age() == config.max_age(),
    {
        Self::start_at(ids, whole_seconds(now_millis()), config)
    }

    /// Starts a reconciliation of `ids` at the time `now`.
    pub fn start_at(ids: Vec<String>, now: i64, config: &ApiConfig) -> (s: Self)
        ensures
            s.ids() == distinct(ids@),
            s.now() == now,
            s.max_age() == config.max_age(),
    {
        CacheLookup { ids: dedup(ids), now, max_age: config.max_rt_age() }
    }

    /// The filter for the snapshots to read: those of the trips asked for that were
    /// taken after the threshold of freshness.
    pub fn filter(&self) -> (d: Document)
        ensures
            entries(d) == seq![
                ("id"@, one_of(text_values(self.ids()))),
                (
                    "updated"@,
                    Value::Doc(one("$gt"@, Value::Int64(threshold(self.now(), self.max_age())))),
                ),
            ],
    {
        proof {
            reveal_strlit("id");
            reveal_strlit("updated");
            assert("id"@.len() == 2);
        }
        let mut d = single("id", bson_doc(single("$in", names_array(&self.ids))));
        append(
            &mut d,
            "updated",
            bson_doc(single("$gt", bson_i64(fresh_after(self.now, self.max_age)))),
        );
        d
    }

    /// Takes what the store holds. A failure of the store ends the reconciliation.
    /// Otherwise the snapshots that are fresh are kept to be served, of each trip
    /// the last one, and the trips that have none are to be fetched from upstream.
    pub fn cached(self, outcome: Result<Vec<TripUpdate>, BackendError>) -> (r: Result<
        Refresh,
        TrackingError,
    >)
        ensures
            match outcome {
                Ok(cached) => {
                    &&& r matches Ok(next)
                    &&& next.now() == self.now()
                    &&& next.served() == served(self.ids(), cached@, self.now(), self.max_age())
                    &&& next.missing() == without(self.ids(), record_ids(next.served()))
                },
                Err(e) => r == Err::<Refresh, TrackingError>(TrackingError::Backend(e)),
            },
    {
        match outcome {
            Err(e) => Err(TrackingError::Backend(e)),
            Ok(cached) => {
                let mut cached = cached;
                let mut kept: Vec<TripUpdate> = Vec::new();
                let mut kept_ids: Vec<String> = Vec::new();
                let ghost all = cached@;
                assert(all.subrange(all.len() as int, all.len() as int) =~= Seq::<
                    TripUpdate,
                >::empty());
                while cached.len() > 0
                    invariant
                        cached@.len() <= all.len(),
                        cached@ == all.subrange(0, cached@.len() as int),
                        kept@ == served(
                            self.ids@,
                            all.subrange(cached@.len() as int, all.len() as int),
                            self.now,
                            self.max_age,
                        ),
                        kept_ids@ == record_ids(kept@),
                    decreases cached.len(),
                {
                    let r = cached.pop().unwrap();
                    proof {
                        let from = all.subrange(cached@.len() as int, all.len() as int);
                        assert(from[0] == r);
                        assert(from.drop_first() =~= all.subrange(
                            cached@.len() as int + 1,
                            all.len() as int,
                        ));
                    }
                    if has_name(&self.ids, r.tracking.id.as_str()) && is_fresh(
                        r.updated,
                        self.now,
                        self.max_age,
                    ) && !has_name(&kept_ids, r.tracking.id.as_str()) {
                        kept_ids.push(r.tracking.id.clone());
                        kept.push(r);
                    }
                }
                assert(all.subrange(0, all.len() as int) =~= all);
                let missing = names_without(&self.ids, &kept_ids);
                Ok(Refresh { now: self.now, served: kept, missing })
            },
        }
    }
}

impl Refresh {
    /// The time of the reconciliation.
    pub closed spec fn now(&self) -> i64 {
        self.now
    }

    /// The snapshots that are served from the store.
    pub closed spec fn served(&self) -> Seq<TripUpdate> {
        self.served@
    }

    /// The ids of the trips that are to be fetched from upstream.
    pub closed spec fn missing(&self) -> Seq<String> {
        self.missing@
    }

    /// The ids of the trips to request from upstream, each once.
    pub fn requests(&self) -> (ids: &Vec<String>)
        ensures
            ids@ == self.missing(),
    {
        &self.missing
    }

    /// A requester for the trips to fetch, with each of them registered and none
    /// started. It lets as many requests run at once as `routing` allows.
    pub fn submit(&self, routing: &RoutingConfig) -> (requester: ParallelRequester<TTTrip>)
        ensures
            requester@ == (RequesterView::<TTTrip> {
                ceiling: routing.ceiling() as nat,
                waiting: self.missing(),
                running: Seq::empty(),
                results: Seq::empty(),
                failure: None,
            }),
            requester@.wf(),
    {
        let mut requester = ParallelRequester::<TTTrip>::new(routing.concurrency());
        let mut i: usize = 0;
        assert(self.missing@.subrange(0, 0) =~= Seq::<String>::empty());
        while i < self.missing.len()
            invariant
                i <= self.missing.len(),
                requester@.wf(),
                requester@ == (RequesterView::<TTTrip> {
                    ceiling: routing.ceiling() as nat,
                    waiting: self.missing@.subrange(0, i as int),
                    running: Seq::empty(),
                    results: Seq::empty(),
                    failure: None,
                }),
            decreases self.missing.len() - i,
        {
            requester.request_one(self.missing[i].clone());
            assert(self.missing@.subrange(0, i + 1) =~= self.missing@.subrange(0, i as int).push(
                self.missing@[i as int],
            ));
            i += 1;
        }
        assert(self.missing@.subrange(0, self.missing.len() as int) =~= self.missing@);
        requester
    }

    /// Takes what upstream answered. A failed request ends the reconciliation,
    /// and so does an answer that leaves a trip out. Otherwise the routes of
    /// the refreshed trips are to be looked up.
    pub fn gathered(self, outcome: Result<Vec<TTTrip>, TTError>) -> (r: Result<
        AreaLookup,
        TrackingError,
    >)
        ensures
            match outcome {
                Ok(answers) => {
                    let trips = answered(self.missing(), answers@);
                    let unanswered = without(self.missing(), trip_ids(trips));
                    if unanswered.len() == 0 {
                        &&& r matches Ok(next)
                        &&& next.now() == self.now()
                        &&& next.served() == self.served()
                        &&& next.trips() == trips
                        &&& next.routes() == routes_of(trips)
                    } else {
                        r matches Err(TrackingError::Unanswered(ids)) && ids@ == unanswered
                    }
                },
                Err(e) => r == Err::<AreaLookup, TrackingError>(TrackingError::Upstream(e)),
            },
    {
        match outcome {
            Err(e) => Err(TrackingError::Upstream(e)),
            Ok(answers) => {
                let mut trips: Vec<Trip> = Vec::new();
                let mut ids: Vec<String> = Vec::new();
                let mut routes: Vec<u16> = Vec::new();
                let ghost all = answers@;
                for a in it: answers
                    invariant
                        it.seq() == all,
                        trips@ == answered(self.missing@, all.subrange(0, it.index() as int)),
                        ids@ == trip_ids(trips@),
                        routes@ == routes_of(trips@),
                {
                    proof {
                        let upto = all.subrange(0, it.index() + 1);
                        assert(upto.drop_last() =~= all.subrange(0, it.index() as int));
                    }
                    if has_name(&self.missing, a.id.as_str()) && !has_name(&ids, a.id.as_str()) {
                        let trip = Trip::from_tt(a);
                        let ghost before = trips@;
                        if !has_route(&routes, trip.route) {
                            routes.push(trip.route);
                        }
                        ids.push(trip.id.clone());
                        trips.push(trip);
                        assert(trips@.drop_last() =~= before);
                    }
                }
                assert(all.subrange(0, all.len() as int) =~= all);
                let unanswered = names_without(&self.missing, &ids);
                if unanswered.len() == 0 {
                    Ok(AreaLookup { now: self.now, served: self.served, trips, routes })
                } else {
                    Err(TrackingError::Unanswered(unanswered))
                }
            },
        }
    }
}

fn has_route(routes: &Vec<u16>, route: u16) -> (b: bool)
    ensures
        b == routes@.contains(route),
{
    let mut i: usize = 0;
    while i < routes.len()
        invariant
            i <= routes.len(),
            forall|k: int| 0 <= k < i ==> routes@[k] != route,
        decreases routes.len() - i,
    {
        if routes[i] == route {
            return true;
        }
        i += 1;
    }
    false
}

fn find_area(areas: &Vec<(u16, AreaType)>, route: u16) -> (a: Option<AreaType>)
    ensures
        a == area_of(areas@, route),
{
    let mut found: Option<AreaType> = None;
    let mut i: usize = 0;
    while i < areas.len()
        invariant
            i <= areas.len(),
            found == area_of(areas@.subrange(0, i as int), route),
        decreases areas.len() - i,
    {
        proof {
            let upto = areas@.subrange(0, i + 1);
            assert(upto.drop_last() =~= areas@.subrange(0, i as int));
        }
        if areas[i].0 == route {
            found = Some(areas[i].1);
        }
        i += 1;
    }
    assert(areas@.subrange(0, areas.len() as int) =~= areas@);
    found
}

impl AreaLookup {
    /// The time of the reconciliation.
    pub closed spec fn now(&self) -> i64 {
        self.now
    }

    /// The snapshots that are served from the store.
    pub closed spec fn served(&self) -> Seq<TripUpdate> {
        self.served@
    }

    /// The trips that upstream has refreshed.
    pub closed spec fn trips(&self) -> Seq<Trip> {
        self.trips@
    }

    /// The routes of the refreshed trips, each once.
    pub closed spec fn routes(&self) -> Seq<u16> {
        self.routes@
    }

    /// The routes whose classification is to be read, each once.
    pub fn route_ids(&self) -> (routes: &Vec<u16>)
        ensures
            routes@ == self.routes(),
    {
        &self.routes
    }

    /// The filter for the routes to read, all in one round trip.
    pub fn filter(&self) -> (d: Document)
        ensures
            entries(d) == one("id"@, one_of(route_values(self.routes()))),
    {
        let mut items: Vec<Bson> = Vec::new();
        let mut i: usize = 0;
        while i < self.routes.len()
            invariant
                i <= self.routes.len(),
                values(items@) == route_values(self.routes@.subrange(0, i as int)),
            decreases self.routes.len() - i,
        {
            let ghost before = items@;
            items.push(bson_i32(self.routes[i] as i32));
            assert(values(items@) =~= values(before).push(Value::Int32(self.routes@[i as int] as i32)));
            i += 1;
        }
        assert(self.routes@.subrange(0, self.routes.len() as int) =~= self.routes@);
        single("id", bson_doc(single("$in", bson_array(items))))
    }

    /// Takes the routes' classifications, as pairs of a route and its
    /// classification. A failure of the store ends the reconciliation. Otherwise
    /// each refreshed trip becomes a snapshot taken now, and these are to be stored.
    pub fn resolved(self, outcome: Result<Vec<(u16, AreaType)>, BackendError>) -> (r: Result<
        Persist,
        TrackingError,
    >)
        ensures
            match outcome {
                Ok(areas) => {
                    &&& r matches Ok(next)
                    &&& next.served() == self.served()
                    &&& next.refreshed() == refreshed(self.trips(), areas@, self.now())
                },
                Err(e) => r == Err::<Persist, TrackingError>(TrackingError::Backend(e)),
            },
    {
        match outcome {
            Err(e) => Err(TrackingError::Backend(e)),
            Ok(areas) => {
                let mut updates: Vec<TripUpdate> = Vec::new();
                let ghost all = self.trips@;
                let now = self.now;
                for t in it: self.trips
                    invariant
                        it.seq() == all,
                        updates@ == refreshed(all.subrange(0, it.index() as int), areas@, now),
                {
                    let area = find_area(&areas, t.route);
                    updates.push(TripUpdate { tracking: TripTracking::from_trip(area, t), updated: now });
                }
                Ok(Persist { served: self.served, refreshed: updates })
            },
        }
    }
}

impl Persist {
    /// The snapshots that are served from the store.
    pub closed spec fn served(&self) -> Seq<TripUpdate> {
        self.served@
    }

    /// The snapshots that were refreshed.
    pub closed spec fn refreshed(&self) -> Seq<TripUpdate> {
        self.refreshed@
    }

    /// The snapshots to store: each replaces the stored snapshot of its trip, or is
    /// inserted where the store holds none.
    pub fn upserts(&self) -> (records: &Vec<TripUpdate>)
        ensures
            records@ == self.refreshed(),
    {
        &self.refreshed
    }

    /// Takes the outcome of storing. A failure of the store ends the
    /// reconciliation. Otherwise the result is the refreshed snapshots followed
    /// by the served ones.
    pub fn persisted(self, outcome: Result<(), BackendError>) -> (r: Result<
        Vec<TripUpdate>,
        TrackingError,
    >)
        ensures
            match outcome {
                Ok(_) => r matches Ok(output) && output@ == self.refreshed() + self.served(),
                Err(e) => r == Err::<Vec<TripUpdate>, TrackingError>(TrackingError::Backend(e)),
            },
    {
        match outcome {
            Err(e) => Err(TrackingError::Backend(e)),
            Ok(_) => {
                let mut output = self.refreshed;
                let mut served = self.served;
                output.append(&mut served);
                Ok(output)
            },
        }
    }
}

/// What a reconciliation of `ids` at `now` comes to when the store holds `cached`,
/// upstream answers with `answers`, the store classifies the routes as `areas`,
/// and no round trip fails: the snapshots for the caller, or the ids that upstream
/// left out.
pub open spec fn reconciled(
    ids: Seq<String>,
    cached: Seq<TripUpdate>,
    answers: Seq<TTTrip>,
    areas: Seq<(u16, AreaType)>,
    now: i64,
    max_age: u64,
) -> Result<Seq<TripUpdate>, Seq<String>> {
    let wanted = distinct(ids);
    let kept = served(wanted, cached, now, max_age);
    let missing = without(wanted, record_ids(kept));
    let trips = answered(missing, answers);
    let unanswered = without(missing, trip_ids(trips));
    if unanswered.len() == 0 {
        Ok(refreshed(trips, areas, now) + kept)
    } else {
        Err(unanswered)
    }
}

/// The whole reconciliation of `ids` at `now` in one call, for a store and an
/// upstream whose answers are at hand: `cached` is what the store holds, `answers`
/// what upstream sends, `areas` how the store classifies the routes.
pub fn reconcile_with(
    ids: Vec<String>,
    now: i64,
    config: &ApiConfig,
    cached: Vec<TripUpdate>,
    answers: Vec<TTTrip>,
    areas: Vec<(u16, AreaType)>,
) -> (r: Result<Vec<TripUpdate>, TrackingError>)
    ensures
        match reconciled(ids@, cached@, answers@, areas@, now, config.max_age() as u64) {
            Ok(output) => r matches Ok(v) && v@ == output,
            Err(left) => r matches Err(TrackingError::Unanswered(l)) && l@ == left,
        },
{
    let lookup = CacheLookup::start_at(ids, now, config);
    let refresh = match lookup.cached(Ok(cached)) {
        Ok(next) => next,
        Err(e) => {
            return Err(e);
        },
    };
    let area_lookup = match refresh.gathered(Ok(answers)) {
        Ok(next) => next,
        Err(e) => {
            return Err(e);
        },
    };
    let persist = match area_lookup.resolved(Ok(areas)) {
        Ok(next) => next,
        Err(e) => {
            return Err(e);
        },
    };
    persist.persisted(Ok(()))
}

/// `without` keeps the names that `have` lacks, and only those; and it keeps no
/// text twice where `ids` has none twice.
pub proof fn lemma_without(ids: Seq<String>, have: Seq<String>)
    ensures
        forall|t: Seq<char>| #[trigger]
            has_text(without(ids, have), t) <==> has_text(ids, t) && !has_text(have, t),
        all_different(ids) ==> all_different(without(ids, have)),
        without(ids, have).len() <= ids.len(),
    decreases ids.len(),
{
    if ids.len() > 0 {
        let init = ids.drop_last();
        let last = ids.last();
        let before = without(init, have);
        let after = without(ids, have);
        lemma_without(init, have);
        assert forall|t: Seq<char>| #[trigger]
            has_text(after, t) <==> has_text(ids, t) && !has_text(have, t) by {
            if has_text(after, t) {
                let i = choose|i: int| 0 <= i < after.len() && (#[trigger] after[i])@ == t;
                if i < before.len() {
                    assert(has_text(before, t));
                }
            }
            if has_text(ids, t) && !has_text(have, t) {
                let k = choose|k: int| 0 <= k < ids.len() && (#[trigger] ids[k])@ == t;
                if k < init.len() {
                    assert(init[k]@ == t);
                    assert(has_text(before, t));
                    let i = choose|i: int| 0 <= i < before.len() && (#[trigger] before[i])@ == t;
                    assert(after[i]@ == t);
                } else {
                    assert(after[after.len() - 1]@ == t);
                }
            }
        }
        if all_different(ids) {
            assert forall|i: int, j: int| 0 <= i < j < after.len() implies (#[trigger] after[i])@
                != (#[trigger] after[j])@ by {
                if j == before.len() {
                    if before[i]@ == last@ {
                        assert(has_text(before, last@));
                    }
                }
            }
        }
    }
}

/// The routes that are looked up are the routes of the refreshed trips, each once.
pub proof fn lemma_routes_of(trips: Seq<Trip>)
    ensures
        routes_of(trips).no_duplicates(),
        forall|r: u16|
            routes_of(trips).contains(r) <==> exists|i: int|
                0 <= i < trips.len() && (#[trigger] trips[i]).route == r,
    decreases trips.len(),
{
    if trips.len() > 0 {
        let init = trips.drop_last();
        let before = routes_of(init);
        let after = routes_of(trips);
        let last = trips.last().route;
        lemma_routes_of(init);
        assert forall|r: u16|
            after.contains(r) <==> exists|i: int|
                0 <= i < trips.len() && (#[trigger] trips[i]).route == r by {
            if after.contains(r) {
                let k = choose|k: int| 0 <= k < after.len() && after[k] == r;
                if k < before.len() {
                    assert(before.contains(r));
                }
            }
            if exists|i: int| 0 <= i < trips.len() && (#[trigger] trips[i]).route == r {
                let i = choose|i: int| 0 <= i < trips.len() && (#[trigger] trips[i]).route == r;
                if i < init.len() {
                    assert(init[i].route == r);
                    assert(before.contains(r));
                    let k = choose|k: int| 0 <= k < before.len() && before[k] == r;
                    assert(after[k] == r);
                } else if !before.contains(last) {
                    assert(after[after.len() - 1] == r);
                }
            }
        }
    }
}

/// The snapshots that are served are of trips that were asked for, fresh, and no
/// two of the same trip.
pub proof fn lemma_served(ids: Seq<String>, cached: Seq<TripUpdate>, now: i64, max_age: u64)
    ensures
        all_different(record_ids(served(ids, cached, now, max_age))),
        forall|t: Seq<char>| #[trigger]
            has_text(record_ids(served(ids, cached, now, max_age)), t) ==> has_text(ids, t),
        forall|i: int|
            0 <= i < served(ids, cached, now, max_age).len() ==> fresh(
                (#[trigger] served(ids, cached, now, max_age)[i]).updated,
                now,
                max_age,
            ),
        served(ids, cached, now, max_age).len() <= cached.len(),
    decreases cached.len(),
{
    if cached.len() > 0 {
        let before = served(ids, cached.drop_first(), now, max_age);
        let after = served(ids, cached, now, max_age);
        let r = cached[0];
        lemma_served(ids, cached.drop_first(), now, max_age);
        let a = record_ids(after);
        let b = record_ids(before);
        assert forall|i: int, j: int| 0 <= i < j < a.len() implies (#[trigger] a[i])@ != (
        #[trigger] a[j])@ by {
            if j == before.len() {
                if b[i]@ == r.tracking.id@ {
                    assert(has_text(b, r.tracking.id@));
                }
            } else {
                assert(a[i] == b[i]);
                assert(a[j] == b[j]);
            }
        }
        assert forall|t: Seq<char>| #[trigger] has_text(a, t) implies has_text(ids, t) by {
            let i = choose|i: int| 0 <= i < a.len() && (#[trigger] a[i])@ == t;
            if i < before.len() {
                assert(b[i]@ == t);
                assert(has_text(b, t));
            }
        }
    }
}

/// The trips that are taken from upstream's answer are trips that were asked of
/// it, and no two have the same id.
pub proof fn lemma_answered(missing: Seq<String>, answers: Seq<TTTrip>)
    ensures
        all_different(trip_ids(answered(missing, answers))),
        forall|t: Seq<char>| #[trigger]
            has_text(trip_ids(answered(missing, answers)), t) ==> has_text(missing, t),
    decreases answers.len(),
{
    if answers.len() > 0 {
        let before = answered(missing, answers.drop_last());
        let after = answered(missing, answers);
        let r = answers.last();
        lemma_answered(missing, answers.drop_last());
        let a = trip_ids(after);
        let b = trip_ids(before);
        assert forall|i: int, j: int| 0 <= i < j < a.len() implies (#[trigger] a[i])@ != (
        #[trigger] a[j])@ by {
            if j == before.len() {
                if b[i]@ == r.id@ {
                    assert(has_text(b, r.id@));
                }
            } else {
                assert(a[i] == b[i]);
                assert(a[j] == b[j]);
            }
        }
        assert forall|t: Seq<char>| #[trigger] has_text(a, t) implies has_text(missing, t) by {
            let i = choose|i: int| 0 <= i < a.len() && (#[trigger] a[i])@ == t;
            if i < before.len() {
                assert(b[i]@ == t);
                assert(has_text(b, t));
            }
        }
    }
}

/// Two lists of names that hold the same texts, neither of them one twice, are of
/// the same length.
pub proof fn lemma_same_texts_same_length(a: Seq<String>, b: Seq<String>)
    requires
        all_different(a),
        all_different(b),
        forall|t: Seq<char>| #[trigger] has_text(a, t) <==> has_text(b, t),
    ensures
        a.len() == b.len(),
{
    let ta = texts(a);
    let tb = texts(b);
    assert(ta.to_set() =~= tb.to_set()) by {
        assert forall|t: Seq<char>| ta.to_set().contains(t) <==> tb.to_set().contains(t) by {
            if ta.contains(t) {
                assert(has_text(a, t));
                let k = choose|k: int| 0 <= k < b.len() && (#[trigger] b[k])@ == t;
                assert(tb[k] == t);
            }
            if tb.contains(t) {
                assert(has_text(a, t));
                let k = choose|k: int| 0 <= k < a.len() && (#[trigger] a[k])@ == t;
                assert(ta[k] == t);
            }
        }
    }
    ta.unique_seq_to_set();
    tb.unique_seq_to_set();
}

/// A reconciliation that succeeds returns one snapshot for each trip that was
/// asked for, however often its id was given: as many snapshots as there are
/// different ids, no two for the same trip, and none for a trip that was not
/// asked for. Each is fresh: served from the store within the freshness window,
/// or taken now.
pub proof fn lemma_one_snapshot_per_trip(
    ids: Seq<String>,
    cached: Seq<TripUpdate>,
    answers: Seq<TTTrip>,
    areas: Seq<(u16, AreaType)>,
    now: i64,
    max_age: u64,
)
    requires
        reconciled(ids, cached, answers, areas, now, max_age) is Ok,
    ensures
        ({
            let output = reconciled(ids, cached, answers, areas, now, max_age)->Ok_0;
            &&& output.len() == distinct(ids).len()
            &&& all_different(record_ids(output))
            &&& forall|t: Seq<char>| #[trigger] has_text(record_ids(output), t) <==> has_text(ids, t)
            &&& forall|i: int|
                0 <= i < output.len() ==> (#[trigger] output[i]).updated == now || fresh(
                    output[i].updated,
                    now,
                    max_age,
                )
        }),
{
    let wanted = distinct(ids);
    let kept = served(wanted, cached, now, max_age);
    let kept_ids = record_ids(kept);
    let missing = without(wanted, kept_ids);
    let trips = answered(missing, answers);
    let got = trip_ids(trips);
    let unanswered = without(missing, got);
    let fresh_ones = refreshed(trips, areas, now);
    let output = fresh_ones + kept;
    let out_ids = record_ids(output);
    lemma_distinct(ids);
    lemma_served(wanted, cached, now, max_age);
    lemma_without(wanted, kept_ids);
    lemma_answered(missing, answers);
    lemma_without(missing, got);
    assert(forall|i: int|
        0 <= i < out_ids.len() ==> #[trigger] out_ids[i] == (if i < trips.len() {
            got[i]
        } else {
            kept_ids[i - trips.len()]
        }));
    assert forall|t: Seq<char>| #[trigger] has_text(out_ids, t) <==> has_text(wanted, t) by {
        if has_text(out_ids, t) {
            let i = choose|i: int| 0 <= i < out_ids.len() && (#[trigger] out_ids[i])@ == t;
            if i < trips.len() {
                assert(has_text(got, t));
            } else {
                assert(has_text(kept_ids, t));
            }
        }
        if has_text(wanted, t) {
            if has_text(kept_ids, t) {
                let k = choose|k: int| 0 <= k < kept_ids.len() && (#[trigger] kept_ids[k])@ == t;
                assert(out_ids[k + trips.len()]@ == t);
            } else {
                if !has_text(got, t) {
                    assert(has_text(unanswered, t));
                }
                let k = choose|k: int| 0 <= k < got.len() && (#[trigger] got[k])@ == t;
                assert(out_ids[k]@ == t);
            }
        }
    }
    assert forall|i: int, j: int| 0 <= i < j < out_ids.len() implies (#[trigger] out_ids[i])@ != (
    #[trigger] out_ids[j])@ by {
        if i < trips.len() <= j && got[i]@ == kept_ids[j - trips.len()]@ {
            assert(has_text(got, got[i]@));
        }
    }
    lemma_same_texts_same_length(out_ids, wanted);
}

/// A snapshot that is still fresh is served again as it is, and upstream is not
/// asked: where the store holds a fresh snapshot of the one trip that is asked
/// for, no id is left to fetch, and the result is that snapshot, whatever upstream
/// would answer.
pub proof fn lemma_fresh_snapshot_is_served_again(
    ids: Seq<String>,
    record: TripUpdate,
    answers: Seq<TTTrip>,
    areas: Seq<(u16, AreaType)>,
    now: i64,
    max_age: u64,
)
    requires
        ids.len() > 0,
        forall|i: int| 0 <= i < ids.len() ==> (#[trigger] ids[i])@ == record.tracking.id@,
        fresh(record.updated, now, max_age),
    ensures
        served(distinct(ids), seq![record], now, max_age) == seq![record],
        without(distinct(ids), record_ids(seq![record])).len() == 0,
        reconciled(ids, seq![record], answers, areas, now, max_age) == Ok::<
            Seq<TripUpdate>,
            Seq<String>,
        >(seq![record]),
{
    let wanted = distinct(ids);
    let cached = seq![record];
    lemma_distinct(ids);
    assert(served(wanted, cached.drop_first(), now, max_age) =~= Seq::<TripUpdate>::empty());
    let kept = served(wanted, cached, now, max_age);
    let kept_ids = record_ids(kept);
    assert(kept_ids[0]@ == record.tracking.id@);
    let missing = without(wanted, kept_ids);
    lemma_without(wanted, kept_ids);
    if missing.len() > 0 {
        assert(has_text(missing, missing[0]@));
    }
    lemma_answered(missing, answers);
    let trips = answered(missing, answers);
    if trips.len() > 0 {
        assert(has_text(trip_ids(trips), trip_ids(trips)[0]@));
    }
}

/// A trip that is asked for twice within the freshness window is fetched from
/// upstream once: where the first call found nothing in the store and succeeded,
/// and the store holds what that call returned, a second call less than `max_age`
/// seconds later finds no trip left to fetch and returns the same snapshot,
/// whatever upstream would answer by then.
pub proof fn lemma_second_call_is_a_cache_hit(
    id: String,
    first_answers: Seq<TTTrip>,
    first_areas: Seq<(u16, AreaType)>,
    first_now: i64,
    second_answers: Seq<TTTrip>,
    second_areas: Seq<(u16, AreaType)>,
    second_now: i64,
    max_age: u64,
)
    requires
        reconciled(seq![id], Seq::empty(), first_answers, first_areas, first_now, max_age) is Ok,
        second_now - first_now < max_age,
    ensures
        ({
            let first = reconciled(
                seq![id],
                Seq::empty(),
                first_answers,
                first_areas,
                first_now,
                max_age,
            )->Ok_0;
            let wanted = distinct(seq![id]);
            &&& first.len() == 1
            &&& first[0].tracking.id@ == id@
            &&& first[0].updated == first_now
            &&& without(wanted, record_ids(served(wanted, first, second_now, max_age))).len() == 0
            &&& reconciled(seq![id], first, second_answers, second_areas, second_now, max_age)
                == Ok::<Seq<TripUpdate>, Seq<String>>(first)
        }),
{
    let ids = seq![id];
    let none = Seq::<TripUpdate>::empty();
    let first = reconciled(ids, none, first_answers, first_areas, first_now, max_age)->Ok_0;
    lemma_one_snapshot_per_trip(ids, none, first_answers, first_areas, first_now, max_age);
    assert(distinct(ids.drop_last()) =~= Seq::<String>::empty());
    assert(first =~= seq![first[0]]);
    lemma_fresh_snapshot_is_served_again(
        ids,
        first[0],
        second_answers,
        second_areas,
        second_now,
        max_age,
    );
}

} // verus!
