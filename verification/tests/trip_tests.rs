use bruss_router::config::ApiConfig;
use bruss_router::data::AreaType;
use bruss_router::query::DBQuery;
use bruss_router::time::ParsableTime;
use bruss_router::trip::{MultiTripQuery, TripQuerySingle};
use bson::{Bson, DateTime, Document};

const TIME: i64 = 1_718_272_800_123;

fn config() -> ApiConfig {
    ApiConfig::new(25, 60).unwrap()
}

fn doc1(key: &str, value: impl Into<Bson>) -> Document {
    let mut d = Document::new();
    d.insert(key, value);
    d
}

fn doc_of(entries: Vec<(&str, Bson)>) -> Document {
    let mut d = Document::new();
    for (k, v) in entries {
        d.insert(k, v);
    }
    d
}

fn date(millis: i64) -> Bson {
    Bson::DateTime(DateTime::from_millis(millis))
}

fn shown(stages: &[Document]) -> String {
    format!("{:?}", stages)
}

fn lookup() -> Document {
    doc1(
        "$lookup",
        doc_of(vec![
            ("from", "trips".into()),
            ("localField", "id".into()),
            ("foreignField", "id".into()),
            ("as", "trip".into()),
        ]),
    )
}

fn route_match(route: i32, time: i64, direction: Option<&str>) -> Document {
    let mut conds: Vec<Bson> = vec![
        doc1("hints.route", route).into(),
        doc1("$expr", doc1("$lte", vec![date(time), Bson::from("$arrival")])).into(),
    ];
    if let Some(d) = direction {
        conds.push(doc1("hints.direction", d).into());
    }
    doc1("$match", doc1("$and", conds))
}

#[test]
fn route_pipeline_stages() {
    let c = MultiTripQuery::pipeline_route_at(
        TIME,
        Some("f".to_string()),
        402,
        Some(10),
        Some(5),
        &config(),
    );
    let built = c.build();
    assert!(built.query.is_none());
    assert_eq!(
        shown(&built.count),
        shown(&[route_match(402, TIME, Some("f")), doc1("$count", "count")])
    );
    assert_eq!(
        shown(&built.fetch),
        shown(&[
            route_match(402, TIME, Some("f")),
            doc1("$sort", doc1("departure", 1i32)),
            lookup(),
            doc1("$unwind", "$trip"),
            doc1("$skip", 10i64),
            doc1("$limit", 5i64),
            doc1(
                "$project",
                doc_of(vec![("_id", 0i32.into()), ("trip", 1i32.into()), ("departure", 1i32.into())])
            ),
        ])
    );
}

#[test]
fn route_pipeline_without_direction_and_page() {
    let built =
        MultiTripQuery::pipeline_route_at(TIME, None, 65535, None, None, &config()).build();
    assert_eq!(
        shown(&built.count),
        shown(&[route_match(65535, TIME, None), doc1("$count", "count")])
    );
    assert_eq!(built.fetch[4], doc1("$skip", 0i64));
    assert_eq!(built.fetch[5], doc1("$limit", 25i64));
}

#[test]
fn custom_pipeline_limit_out_of_range_is_the_default() {
    for (asked, used) in [(0u32, 25i64), (1, 1), (100, 100), (101, 25), (u32::MAX, 25)] {
        let built =
            MultiTripQuery::pipeline_route_at(TIME, None, 1, None, Some(asked), &config()).build();
        assert_eq!(built.fetch[5], doc1("$limit", used));
        let built = MultiTripQuery::pipeline_stop_at(
            TIME,
            None,
            1,
            AreaType::U,
            None,
            Some(asked),
            &config(),
        )
        .build();
        assert_eq!(built.fetch[8], doc1("$limit", used));
    }
}

#[test]
fn route_pipeline_of_a_query_with_a_time() {
    let q = MultiTripQuery { time: Some(ParsableTime(TIME)), direction: None };
    let built = q.into_pipeline_route(7, Some(2), Some(3), &config()).build();
    let at = MultiTripQuery::pipeline_route_at(TIME, None, 7, Some(2), Some(3), &config()).build();
    assert_eq!(shown(&built.fetch), shown(&at.fetch));
    assert_eq!(shown(&built.count), shown(&at.count));
}

fn time_of(stage: &Document) -> i64 {
    let conds = stage.get_document("$match").unwrap().get_array("$and").unwrap();
    let lte = conds[1]
        .as_document()
        .unwrap()
        .get_document("$expr")
        .unwrap()
        .get_array("$lte")
        .unwrap();
    lte[0].as_datetime().unwrap().timestamp_millis()
}

fn now_millis() -> i64 {
    std::time::SystemTime::now().duration_since(std::time::UNIX_EPOCH).unwrap().as_millis() as i64
}

#[test]
fn route_pipeline_of_a_query_without_a_time_is_from_now() {
    let before = now_millis();
    let q = MultiTripQuery { time: None, direction: Some("b".to_string()) };
    let built = q.into_pipeline_route(7, None, None, &config()).build();
    let after = now_millis();
    let used = time_of(&built.count[0]);
    assert!(before <= used && used <= after);
    let at = MultiTripQuery::pipeline_route_at(used, Some("b".to_string()), 7, None, None, &config())
        .build();
    assert_eq!(shown(&built.fetch), shown(&at.fetch));
    assert_eq!(shown(&built.count), shown(&at.count));
}

fn stop_narrowing(stop: u16, ty: &str, time: i64, direction: Option<&str>) -> Vec<Document> {
    let key = format!("hints.times.{}.departure", stop);
    let mut conds: Vec<Bson> =
        vec![doc1("hints.type", ty).into(), doc1(&key, doc1("$exists", true)).into()];
    if let Some(d) = direction {
        conds.push(doc1("hints.direction", d).into());
    }
    let window: Vec<Bson> = vec![
        doc1("departure", doc1("$gte", date(time - 4 * 3600 * 1000))).into(),
        doc1("departure", doc1("$lt", date(time + 24 * 3600 * 1000))).into(),
    ];
    let element: Vec<Bson> = vec![format!("${}", key).into(), 0i32.into()];
    let product: Vec<Bson> = vec![1000i32.into(), doc1("$arrayElemAt", element).into()];
    let sum: Vec<Bson> = vec!["$departure".into(), doc1("$multiply", product).into()];
    vec![
        doc1("$match", doc1("$and", conds)),
        doc1("$match", doc1("$and", window)),
        doc1("$addFields", doc1("arrival_at_stop", doc1("$add", sum))),
        doc1("$match", doc1("arrival_at_stop", doc1("$gte", date(time - 20 * 60 * 1000)))),
    ]
}

#[test]
fn stop_pipeline_stages() {
    let built = MultiTripQuery::pipeline_stop_at(
        TIME,
        Some("f".to_string()),
        2005,
        AreaType::U,
        Some(4),
        Some(50),
        &config(),
    )
    .build();
    assert!(built.query.is_none());
    let mut count = stop_narrowing(2005, "u", TIME, Some("f"));
    let mut fetch = count.clone();
    count.push(doc1("$count", "count"));
    fetch.extend(vec![
        doc1("$sort", doc1("arrival_at_stop", 1i32)),
        lookup(),
        doc1("$unwind", "$trip"),
        doc1("$skip", 4i64),
        doc1("$limit", 50i64),
        doc1(
            "$project",
            doc_of(vec![
                ("_id", 0i32.into()),
                ("trip", 1i32.into()),
                ("departure", 1i32.into()),
                ("arrival_at_stop", 1i32.into()),
            ]),
        ),
    ]);
    assert_eq!(shown(&built.count), shown(&count));
    assert_eq!(shown(&built.fetch), shown(&fetch));
}

#[test]
fn stop_pipeline_names_the_stop_in_decimal() {
    for stop in [0u16, 7, 10, 99, 100, 4321, 65535] {
        let built = MultiTripQuery::pipeline_stop_at(
            TIME,
            None,
            stop,
            AreaType::E,
            None,
            None,
            &config(),
        )
        .build();
        assert_eq!(shown(&built.count[0..4]), shown(&stop_narrowing(stop, "e", TIME, None)));
    }
}

#[test]
fn stop_pipeline_times_stay_within_range() {
    let built = MultiTripQuery::pipeline_stop_at(
        i64::MAX,
        None,
        1,
        AreaType::U,
        None,
        None,
        &config(),
    )
    .build();
    let window = built.fetch[1].get_document("$match").unwrap().get_array("$and").unwrap();
    let upper = window[1].as_document().unwrap().get_document("departure").unwrap();
    assert_eq!(upper.get_datetime("$lt").unwrap().timestamp_millis(), i64::MAX);
    let lower = window[0].as_document().unwrap().get_document("departure").unwrap();
    assert_eq!(lower.get_datetime("$gte").unwrap().timestamp_millis(), i64::MAX - 14_400_000);

    let built = MultiTripQuery::pipeline_stop_at(
        i64::MIN,
        None,
        1,
        AreaType::U,
        None,
        None,
        &config(),
    )
    .build();
    let window = built.fetch[1].get_document("$match").unwrap().get_array("$and").unwrap();
    let lower = window[0].as_document().unwrap().get_document("departure").unwrap();
    assert_eq!(lower.get_datetime("$gte").unwrap().timestamp_millis(), i64::MIN);
    let arrival = built.fetch[3].get_document("$match").unwrap().get_document("arrival_at_stop");
    assert_eq!(arrival.unwrap().get_datetime("$gte").unwrap().timestamp_millis(), i64::MIN);
}

#[test]
fn stop_pipeline_of_a_query() {
    let q = MultiTripQuery { time: Some(ParsableTime(TIME)), direction: Some("b".to_string()) };
    let built = q.into_pipeline_stop(12, AreaType::E, Some(1), Some(2), &config()).build();
    let at = MultiTripQuery::pipeline_stop_at(
        TIME,
        Some("b".to_string()),
        12,
        AreaType::E,
        Some(1),
        Some(2),
        &config(),
    )
    .build();
    assert_eq!(shown(&built.fetch), shown(&at.fetch));
    assert_eq!(shown(&built.count), shown(&at.count));

    let before = now_millis();
    let q = MultiTripQuery { time: None, direction: None };
    let built = q.into_pipeline_stop(12, AreaType::E, None, None, &config()).build();
    let after = now_millis();
    let arrival = built.fetch[3].get_document("$match").unwrap().get_document("arrival_at_stop");
    let used = arrival.unwrap().get_datetime("$gte").unwrap().timestamp_millis() + 1_200_000;
    assert!(before <= used && used <= after);
}

#[test]
fn single_trip_query_filters_by_id() {
    let d = TripQuerySingle { id: "0004306762025061320250909".to_string() }.to_doc();
    assert_eq!(format!("{:?}", d), format!("{:?}", doc1("id", "0004306762025061320250909")));
}
