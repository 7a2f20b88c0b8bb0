//! Queries for trips: one trip by its id, and the trips that run on a route or
//! call at a stop, which are read from the schedules and joined with the trips.

use vstd::prelude::*;
use bson::{Bson, Document};
use crate::clock::now_millis;
use crate::config::{ApiConfig, MAX_LIMIT};
use crate::data::AreaType;
use crate::document::{
    append, bson_array, bson_bool, bson_datetime, bson_doc, bson_i32, bson_i64, bson_str, entries,
    one, single, stages, values, Entries, Value,
};
use crate::number::{decimal, to_decimal};
use crate::pipeline::{count_stage, page_stages, BuiltView, CustomPipeline, Pipeline};
use crate::query::DBQuery;
use crate::text::text_of;
use crate::time::ParsableTime;

verus! {

/// Four hours, in milliseconds.
pub const EARLIEST_DEPARTURE: i64 = 14_400_000;

/// One day, in milliseconds.
pub const LATEST_DEPARTURE: i64 = 86_400_000;

/// Twenty minutes, in milliseconds: how late a trip may be and still be listed.
pub const DELAY_BUFFER: i64 = 1_200_000;

/// The query for one trip by its id.
#[derive(Debug)]
pub struct TripQuerySingle {
    pub id: String,
}

impl DBQuery for TripQuerySingle {
    open spec fn filter(self) -> Entries {
        one("id"@, Value::Text(self.id@))
    }

    fn to_doc(self) -> (d: Document) {
        single("id", bson_str(self.id.as_str()))
    }
}

/// The options of a query for several trips.
#[derive(Debug)]
pub struct MultiTripQuery {
    /// The time from which trips are wanted; `None` stands for the time of the call.
    pub time: Option<ParsableTime>,
    /// The direction of travel, as the schedules name it; `None` for both.
    pub direction: Option<String>,
}

/// The page size of a query with custom stages: what the caller asks for where
/// that is from 1 to `MAX_LIMIT`, and the configured default otherwise.
pub open spec fn page_limit(limit: Option<u32>, config: ApiConfig) -> i64 {
    match limit {
        Some(v) if 1 <= v <= MAX_LIMIT => v as i64,
        _ => config.default_page() as i64,
    }
}

/// How many matches a query with custom stages passes over.
pub open spec fn page_skip(skip: Option<u32>) -> i64 {
    match skip {
        Some(v) => v as i64,
        None => 0,
    }
}

/// `time` moved by `delta` milliseconds, kept within the range of `i64`.
pub open spec fn shifted(time: i64, delta: int) -> i64 {
    if time + delta < i64::MIN {
        i64::MIN
    } else if time + delta > i64::MAX {
        i64::MAX
    } else {
        (time + delta) as i64
    }
}

/// The condition on the direction of travel, if one is asked for.
pub open spec fn direction_condition(direction: Option<Seq<char>>) -> Seq<Value> {
    match direction {
        Some(d) => seq![Value::Doc(one("hints.direction"@, Value::Text(d)))],
        None => Seq::empty(),
    }
}

/// The conditions on a schedule for the trips of a route: it runs on the route, it
/// has not yet arrived at `time`, and it goes in the direction asked for.
pub open spec fn route_conditions(route: u16, time: i64, direction: Option<Seq<char>>) -> Seq<
    Value,
> {
    seq![
        Value::Doc(one("hints.route"@, Value::Int32(route as i32))),
        Value::Doc(
            one(
                "$expr"@,
                Value::Doc(
                    one("$lte"@, Value::Array(seq![Value::DateTime(time), Value::Text("$arrival"@)])),
                ),
            ),
        ),
    ] + direction_condition(direction)
}

/// The field of a schedule that holds the offset of the departure from `stop`.
pub open spec fn stop_time_field(stop: u16) -> Seq<char> {
    "hints.times."@ + decimal(stop as nat) + ".departure"@
}

/// The conditions on a schedule for the trips at a stop that do not depend on the
/// time: its classification, that it calls at the stop, and its direction.
pub open spec fn stop_conditions(stop: u16, area_type: AreaType, direction: Option<Seq<char>>) -> Seq<
    Value,
> {
    seq![
        Value::Doc(one("hints.type"@, Value::Text(area_type.text()))),
        Value::Doc(one(stop_time_field(stop), Value::Doc(one("$exists"@, Value::Bool(true))))),
    ] + direction_condition(direction)
}

/// The stage that keeps the documents that meet all of `conditions`.
pub open spec fn match_all(conditions: Seq<Value>) -> Entries {
    one("$match"@, Value::Doc(one("$and"@, Value::Array(conditions))))
}

/// The stage that keeps the schedules which depart from four hours before `time`
/// to one day after it.
pub open spec fn departure_window(time: i64) -> Entries {
    match_all(
        seq![
            Value::Doc(
                one(
                    "departure"@,
                    Value::Doc(
                        one("$gte"@, Value::DateTime(shifted(time, -(EARLIEST_DEPARTURE as int)))),
                    ),
                ),
            ),
            Value::Doc(
                one(
                    "departure"@,
                    Value::Doc(one("$lt"@, Value::DateTime(shifted(time, LATEST_DEPARTURE as int)))),
                ),
            ),
        ],
    )
}

/// The stage that computes `arrival_at_stop`: the departure of the trip plus the
/// offset of `stop`, which the schedule holds in seconds.
pub open spec fn arrival_at_stop(stop: u16) -> Entries {
    one(
        "$addFields"@,
        Value::Doc(
            one(
                "arrival_at_stop"@,
                Value::Doc(
                    one(
                        "$add"@,
                        Value::Array(
                            seq![
                                Value::Text("$departure"@),
                                Value::Doc(
                                    one(
                                        "$multiply"@,
                                        Value::Array(
                                            seq![
                                                Value::Int32(1000),
                                                Value::Doc(
                                                    one(
                                                        "$arrayElemAt"@,
                                                        Value::Array(
                                                            seq![
                                                                Value::Text(
                                                                    "$"@ + stop_time_field(stop),
                                                                ),
                                                                Value::Int32(0),
                                                            ],
                                                        ),
                                                    ),
                                                ),
                                            ],
                                        ),
                                    ),
                                ),
                            ],
                        ),
                    ),
                ),
            ),
        ),
    )
}

/// The stage that keeps the trips which reach the stop no earlier than twenty
/// minutes before `time`.
pub open spec fn arrives_after(time: i64) -> Entries {
    one(
        "$match"@,
        Value::Doc(
            one(
                "arrival_at_stop"@,
                Value::Doc(one("$gte"@, Value::DateTime(shifted(time, -(DELAY_BUFFER as int))))),
            ),
        ),
    )
}

/// The stage that sorts by `field`, ascending.
pub open spec fn sort_by(field: Seq<char>) -> Entries {
    one("$sort"@, Value::Doc(one(field, Value::Int32(1))))
}

/// The stage that joins each schedule with the trips of the same id.
pub open spec fn lookup_trip() -> Entries {
    one(
        "$lookup"@,
        Value::Doc(
            seq![
                ("from"@, Value::Text("trips"@)),
                ("localField"@, Value::Text("id"@)),
                ("foreignField"@, Value::Text("id"@)),
                ("as"@, Value::Text("trip"@)),
            ],
        ),
    )
}

/// The stage that makes one row of each joined trip.
pub open spec fn unwind_trip() -> Entries {
    one("$unwind"@, Value::Text("$trip"@))
}

/// The stage that keeps the trip and its departure, and the arrival at the stop
/// where `with_arrival` is set.
pub open spec fn project_trip(with_arrival: bool) -> Entries {
    let fields = seq![
        ("_id"@, Value::Int32(0)),
        ("trip"@, Value::Int32(1)),
        ("departure"@, Value::Int32(1)),
    ];
    one(
        "$project"@,
        Value::Doc(
            if with_arrival {
                fields.push(("arrival_at_stop"@, Value::Int32(1)))
            } else {
                fields
            },
        ),
    )
}

/// The stage lists for the trips of `route` from `time` on: counted by the
/// conditions alone; fetched in the order of departure, joined with the trips.
pub open spec fn route_pipeline(
    route: u16,
    time: i64,
    direction: Option<Seq<char>>,
    skip: i64,
    limit: i64,
) -> BuiltView {
    let matching = match_all(route_conditions(route, time, direction));
    BuiltView {
        count: seq![matching, count_stage()],
        fetch: seq![matching, sort_by("departure"@), lookup_trip(), unwind_trip()] + page_stages(
            skip,
            limit,
        ) + seq![project_trip(false)],
        query: None,
    }
}

/// The stage lists for the trips that call at `stop` around `time`: the schedules
/// are narrowed by the conditions and by their departure, the arrival at the stop
/// is computed and must not lie more than twenty minutes before `time`. They
/// are fetched in the order of that arrival, joined with the trips.
pub open spec fn stop_pipeline(
    stop: u16,
    area_type: AreaType,
    time: i64,
    direction: Option<Seq<char>>,
    skip: i64,
    limit: i64,
) -> BuiltView {
    let narrowing = seq![
        match_all(stop_conditions(stop, area_type, direction)),
        departure_window(time),
        arrival_at_stop(stop),
        arrives_after(time),
    ];
    BuiltView {
        count: narrowing + seq![count_stage()],
        fetch: narrowing + seq![sort_by("arrival_at_stop"@), lookup_trip(), unwind_trip()]
            + page_stages(skip, limit) + seq![project_trip(true)],
        query: None,
    }
}

fn limit_or_default(limit: Option<u32>, config: &ApiConfig) -> (v: i64)
    ensures
        v == page_limit(limit, *config),
{
    match limit {
        Some(v) => if 1 <= v && v as i64 <= MAX_LIMIT {
            v as i64
        } else {
            config.default_limit()
        },
        None => config.default_limit(),
    }
}

fn skip_or_zero(skip: Option<u32>) -> (v: i64)
    ensures
        v == page_skip(skip),
{
    match skip {
        Some(v) => v as i64,
        None => 0,
    }
}

fn shift(time: i64, delta: i64) -> (t: i64)
    ensures
        t == shifted(time, delta as int),
{
    match time.checked_add(delta) {
        Some(t) => t,
        None => if delta < 0 {
            i64::MIN
        } else {
            i64::MAX
        },
    }
}

fn match_all_stage(conditions: Vec<Bson>) -> (d: Document)
    ensures
        entries(d) == match_all(values(conditions@)),
{
    single("$match", bson_doc(single("$and", bson_array(conditions))))
}

fn sort_by_stage(field: &str) -> (d: Document)
    ensures
        entries(d) == sort_by(field@),
{
    single("$sort", bson_doc(single(field, bson_i32(1))))
}

fn lookup_trip_stage() -> (d: Document)
    ensures
        entries(d) == lookup_trip(),
{
    proof {
        reveal_strlit("from");
        reveal_strlit("localField");
        reveal_strlit("foreignField");
        reveal_strlit("as");
        assert("from"@.len() == 4);
        assert("localField"@.len() == 10);
        assert("foreignField"@.len() == 12);
    }
    let mut join = single("from", bson_str("trips"));
    append(&mut join, "localField", bson_str("id"));
    append(&mut join, "foreignField", bson_str("id"));
    append(&mut join, "as", bson_str("trip"));
    assert(entries(join) =~= seq![
        ("from"@, Value::Text("trips"@)),
        ("localField"@, Value::Text("id"@)),
        ("foreignField"@, Value::Text("id"@)),
        ("as"@, Value::Text("trip"@)),
    ]);
    single("$lookup", bson_doc(join))
}

fn unwind_trip_stage() -> (d: Document)
    ensures
        entries(d) == unwind_trip(),
{
    single("$unwind", bson_str("$trip"))
}

fn project_trip_stage(with_arrival: bool) -> (d: Document)
    ensures
        entries(d) == project_trip(with_arrival),
{
    proof {
        reveal_strlit("_id");
        reveal_strlit("trip");
        reveal_strlit("departure");
        reveal_strlit("arrival_at_stop");
        assert("_id"@.len() == 3);
        assert("trip"@.len() == 4);
        assert("departure"@.len() == 9);
    }
    let mut fields = single("_id", bson_i32(0));
    append(&mut fields, "trip", bson_i32(1));
    append(&mut fields, "departure", bson_i32(1));
    assert(entries(fields) =~= seq![
        ("_id"@, Value::Int32(0)),
        ("trip"@, Value::Int32(1)),
        ("departure"@, Value::Int32(1)),
    ]);
    if with_arrival {
        append(&mut fields, "arrival_at_stop", bson_i32(1));
    }
    single("$project", bson_doc(fields))
}

fn count_stage_doc() -> (d: Document)
    ensures
        entries(d) == count_stage(),
{
    single("$count", bson_str("count"))
}

fn push_direction(conditions: &mut Vec<Bson>, direction: &Option<String>)
    ensures
        values(final(conditions)@) == values(old(conditions)@) + direction_condition(
            text_of(*direction),
        ),
{
    if let Some(d) = direction {
        conditions.push(bson_doc(single("hints.direction", bson_str(d.as_str()))));
    }
}

fn push_page(fetch: &mut Vec<Document>, skip: i64, limit: i64)
    ensures
        stages(final(fetch)@) == stages(old(fetch)@) + page_stages(skip, limit),
{
    fetch.push(single("$skip", bson_i64(skip)));
    fetch.push(single("$limit", bson_i64(limit)));
}

fn stop_time_key(stop: u16) -> (s: String)
    ensures
        s@ == stop_time_field(stop),
{
    let mut s = String::from_str("hints.times.");
    let digits = to_decimal(stop);
    s.append(digits.as_str());
    s.append(".departure");
    s
}

fn stop_time_reference(stop: u16) -> (s: String)
    ensures
        s@ == "$"@ + stop_time_field(stop),
{
    let mut s = String::from_str("$");
    let key = stop_time_key(stop);
    s.append(key.as_str());
    s
}

fn departure_window_stage(time: i64) -> (d: Document)
    ensures
        entries(d) == departure_window(time),
{
    let mut conds: Vec<Bson> = Vec::new();
    conds.push(
        bson_doc(
            single(
                "departure",
                bson_doc(single("$gte", bson_datetime(shift(time, -EARLIEST_DEPARTURE)))),
            ),
        ),
    );
    conds.push(
        bson_doc(
            single(
                "departure",
                bson_doc(single("$lt", bson_datetime(shift(time, LATEST_DEPARTURE)))),
            ),
        ),
    );
    assert(values(conds@) =~= seq![
        Value::Doc(
            one(
                "departure"@,
                Value::Doc(one("$gte"@, Value::DateTime(shifted(time, -(EARLIEST_DEPARTURE as int))))),
            ),
        ),
        Value::Doc(
            one(
                "departure"@,
                Value::Doc(one("$lt"@, Value::DateTime(shifted(time, LATEST_DEPARTURE as int)))),
            ),
        ),
    ]);
    match_all_stage(conds)
}

fn arrival_at_stop_stage(stop: u16) -> (d: Document)
    ensures
        entries(d) == arrival_at_stop(stop),
{
    let reference = stop_time_reference(stop);
    let mut element: Vec<Bson> = Vec::new();
    element.push(bson_str(reference.as_str()));
    element.push(bson_i32(0));
    assert(values(element@) =~= seq![Value::Text("$"@ + stop_time_field(stop)), Value::Int32(0)]);
    let mut product: Vec<Bson> = Vec::new();
    product.push(bson_i32(1000));
    product.push(bson_doc(single("$arrayElemAt", bson_array(element))));
    assert(values(product@) =~= seq![
        Value::Int32(1000),
        Value::Doc(
            one(
                "$arrayElemAt"@,
                Value::Array(seq![Value::Text("$"@ + stop_time_field(stop)), Value::Int32(0)]),
            ),
        ),
    ]);
    let mut sum: Vec<Bson> = Vec::new();
    sum.push(bson_str("$departure"));
    sum.push(bson_doc(single("$multiply", bson_array(product))));
    assert(values(sum@) =~= seq![
        Value::Text("$departure"@),
        Value::Doc(one("$multiply"@, Value::Array(values(product@)))),
    ]);
    single(
        "$addFields",
        bson_doc(single("arrival_at_stop", bson_doc(single("$add", bson_array(sum))))),
    )
}

fn arrives_after_stage(time: i64) -> (d: Document)
    ensures
        entries(d) == arrives_after(time),
{
    single(
        "$match",
        bson_doc(
            single(
                "arrival_at_stop",
                bson_doc(single("$gte", bson_datetime(shift(time, -DELAY_BUFFER)))),
            ),
        ),
    )
}

impl MultiTripQuery {
    /// The pipeline for the trips of `route` from the query's time on, or from now
    /// on where it names no time.
    pub fn into_pipeline_route(
        self,
        route: u16,
        skip: Option<u32>,
        limit: Option<u32>,
        config: &ApiConfig,
    ) -> (c: CustomPipeline)
        ensures
            self.time matches Some(time) ==> c@ == route_pipeline(
                route,
                time.0,
                text_of(self.direction),
                page_skip(skip),
                page_limit(limit, *config),
            ),
            self.time is None ==> exists|now: i64|
                c@ == #[trigger] route_pipeline(
                    route,
                    now,
                    text_of(self.direction),
                    page_skip(skip),
                    page_limit(limit, *config),
                ),
    {
        let time = match self.time {
            Some(t) => t.millis(),
            None => now_millis(),
        };
        Self::pipeline_route_at(time, self.direction, route, skip, limit, config)
    }

    /// The pipeline for the trips of `route` from `time` on.
    pub fn pipeline_route_at(
        time: i64,
        direction: Option<String>,
        route: u16,
        skip: Option<u32>,
        limit: Option<u32>,
        config: &ApiConfig,
    ) -> (c: CustomPipeline)
        ensures
            c@ == route_pipeline(
                route,
                time,
                text_of(direction),
                page_skip(skip),
                page_limit(limit, *config),
            ),
    {
        let mut not_arrived: Vec<Bson> = Vec::new();
        not_arrived.push(bson_datetime(time));
        not_arrived.push(bson_str("$arrival"));
        assert(values(not_arrived@) =~= seq![Value::DateTime(time), Value::Text("$arrival"@)]);

        let mut conds: Vec<Bson> = Vec::new();
        conds.push(bson_doc(single("hints.route", bson_i32(route as i32))));
        conds.push(
            bson_doc(single("$expr", bson_doc(single("$lte", bson_array(not_arrived))))),
        );
        push_direction(&mut conds, &direction);
        assert(values(conds@) =~= route_conditions(
            route,
            time,
            text_of(direction),
        ));

        let limit = limit_or_default(limit, config);
        let skip = skip_or_zero(skip);

        let match_stage = match_all_stage(conds);

        let mut count: Vec<Document> = Vec::new();
        count.push(match_stage.clone());
        count.push(count_stage_doc());

        let mut fetch: Vec<Document> = Vec::new();
        fetch.push(match_stage);
        fetch.push(sort_by_stage("departure"));
        fetch.push(lookup_trip_stage());
        fetch.push(unwind_trip_stage());
        assert(stages(fetch@) =~= seq![
            entries(match_stage),
            sort_by("departure"@),
            lookup_trip(),
            unwind_trip(),
        ]);
        push_page(&mut fetch, skip, limit);
        fetch.push(project_trip_stage(false));

        assert(stages(count@) =~= seq![entries(match_stage), count_stage()]);
        assert(stages(fetch@) =~= seq![
            entries(match_stage),
            sort_by("departure"@),
            lookup_trip(),
            unwind_trip(),
        ] + page_stages(skip, limit) + seq![project_trip(false)]);
        Pipeline::custom(fetch, count)
    }

    /// The pipeline for the trips that call at `stop` around the query's time, or
    /// around now where it names no time.
    pub fn into_pipeline_stop(
        self,
        stop: u16,
        area_type: AreaType,
        skip: Option<u32>,
        limit: Option<u32>,
        config: &ApiConfig,
    ) -> (c: CustomPipeline)
        ensures
            self.time matches Some(time) ==> c@ == stop_pipeline(
                stop,
                area_type,
                time.0,
                text_of(self.direction),
                page_skip(skip),
                page_limit(limit, *config),
            ),
            self.time is None ==> exists|now: i64|
                c@ == #[trigger] stop_pipeline(
                    stop,
                    area_type,
                    now,
                    text_of(self.direction),
                    page_skip(skip),
                    page_limit(limit, *config),
                ),
    {
        let time = match self.time {
            Some(t) => t.millis(),
            None => now_millis(),
        };
        Self::pipeline_stop_at(time, self.direction, stop, area_type, skip, limit, config)
    }

    /// The pipeline for the trips that call at `stop` around `time`.
    pub fn pipeline_stop_at(
        time: i64,
        direction: Option<String>,
        stop: u16,
        area_type: AreaType,
        skip: Option<u32>,
        limit: Option<u32>,
        config: &ApiConfig,
    ) -> (c: CustomPipeline)
        ensures
            c@ == stop_pipeline(
                stop,
                area_type,
                time,
                text_of(direction),
                page_skip(skip),
                page_limit(limit, *config),
            ),
    {
        let key = stop_time_key(stop);
        let mut conds: Vec<Bson> = Vec::new();
        conds.push(bson_doc(single("hints.type", bson_str(area_type.as_str()))));
        conds.push(bson_doc(single(key.as_str(), bson_doc(single("$exists", bson_bool(true))))));
        push_direction(&mut conds, &direction);
        assert(values(conds@) =~= stop_conditions(
            stop,
            area_type,
            text_of(direction),
        ));

        let skip = skip_or_zero(skip);
        let limit = limit_or_default(limit, config);

        let match_stage = match_all_stage(conds);
        let heuristic_match_stage = departure_window_stage(time);
        let set_stage = arrival_at_stop_stage(stop);
        let match_arrival_stage = arrives_after_stage(time);
        let ghost narrowing = seq![
            entries(match_stage),
            departure_window(time),
            arrival_at_stop(stop),
            arrives_after(time),
        ];

        let mut count: Vec<Document> = Vec::new();
        count.push(match_stage.clone());
        count.push(heuristic_match_stage.clone());
        count.push(set_stage.clone());
        count.push(match_arrival_stage.clone());
        count.push(count_stage_doc());
        assert(stages(count@) =~= narrowing + seq![count_stage()]);

        let mut fetch: Vec<Document> = Vec::new();
        fetch.push(match_stage);
        fetch.push(heuristic_match_stage);
        fetch.push(set_stage);
        fetch.push(match_arrival_stage);
        fetch.push(sort_by_stage("arrival_at_stop"));
        fetch.push(lookup_trip_stage());
        fetch.push(unwind_trip_stage());
        assert(stages(fetch@) =~= narrowing + seq![
            sort_by("arrival_at_stop"@),
            lookup_trip(),
            unwind_trip(),
        ]);
        push_page(&mut fetch, skip, limit);
        fetch.push(project_trip_stage(true));
        assert(stages(fetch@) =~= narrowing + seq![
            sort_by("arrival_at_stop"@),
            lookup_trip(),
            unwind_trip(),
        ] + page_stages(skip, limit) + seq![project_trip(true)]);
        Pipeline::custom(fetch, count)
    }
}

} // verus!
