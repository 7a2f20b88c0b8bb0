use bruss_router::config::ApiConfig;
use bruss_router::data::{Route, Stops};
use bruss_router::pipeline::Pipeline;
use bruss_router::query::{
    extract_total, query, query_db, query_single, BackendError, DBQuery, QueryResult, Queryable,
    RawDBQuery,
};
use bson::{Bson, Document};

fn config() -> ApiConfig {
    ApiConfig::new(25, 60).unwrap()
}

fn doc1(key: &str, value: impl Into<Bson>) -> Document {
    let mut d = Document::new();
    d.insert(key, value);
    d
}

fn shown(stages: &[Document]) -> String {
    format!("{:?}", stages)
}

/// A shape of these tests' own that rows of stops may be decoded into.
#[derive(Debug, PartialEq)]
struct PlaceName(String);

impl Queryable<Stops> for PlaceName {}

/// A collection held in memory that runs the stages the way the store does, for
/// the few stages that these tests use.
struct MemoryStore {
    docs: Vec<Document>,
}

fn matches(doc: &Document, filter: &Document) -> bool {
    filter.iter().all(|(k, v)| doc.get(k) == Some(v))
}

fn as_number(b: Option<&Bson>) -> i64 {
    match b {
        Some(Bson::Int32(v)) => *v as i64,
        Some(Bson::Int64(v)) => *v,
        other => panic!("not a number: {:?}", other),
    }
}

impl MemoryStore {
    fn aggregate(&self, stages: &[Document]) -> Vec<Document> {
        let mut rows: Vec<Document> = self.docs.clone();
        for stage in stages {
            assert_eq!(stage.len(), 1);
            let (name, arg) = stage.iter().next().unwrap();
            match name.as_str() {
                "$match" => {
                    let filter = arg.as_document().unwrap();
                    rows.retain(|d| matches(d, filter));
                }
                "$sort" => {
                    let keys: Vec<(String, i64)> = arg
                        .as_document()
                        .unwrap()
                        .iter()
                        .map(|(k, v)| (k.clone(), as_number(Some(v))))
                        .collect();
                    rows.sort_by(|a, b| {
                        for (k, dir) in &keys {
                            let x = as_number(a.get(k));
                            let y = as_number(b.get(k));
                            if x != y {
                                let o = x.cmp(&y);
                                return if *dir < 0 { o.reverse() } else { o };
                            }
                        }
                        std::cmp::Ordering::Equal
                    });
                }
                "$skip" => {
                    let n = as_number(Some(arg)) as usize;
                    rows = rows.into_iter().skip(n).collect();
                }
                "$limit" => {
                    let n = as_number(Some(arg)) as usize;
                    rows.truncate(n);
                }
                "$count" => {
                    let field = arg.as_str().unwrap();
                    rows = if rows.is_empty() {
                        vec![]
                    } else {
                        vec![doc1(field, rows.len() as i32)]
                    };
                }
                other => panic!("stage {} is not known to this store", other),
            }
        }
        rows
    }

    fn counts(&self, stages: &[Document]) -> Vec<i64> {
        self.aggregate(stages).iter().map(|d| as_number(d.get("count"))).collect()
    }
}

fn seeded() -> MemoryStore {
    let mut docs = Vec::new();
    for (id, ty) in [
        (7, "urban"),
        (2, "suburban"),
        (5, "urban"),
        (1, "suburban"),
        (9, "urban"),
        (3, "urban"),
        (8, "suburban"),
        (4, "urban"),
    ] {
        let mut d = Document::new();
        d.insert("id", id as i32);
        d.insert("type", ty);
        docs.push(d);
    }
    MemoryStore { docs }
}

fn run(store: &MemoryStore, pipeline: Pipeline) -> QueryResult<Document> {
    let round = query::<Route, Route>(pipeline.build());
    assert_eq!(round.collection, "routes");
    let rows = store.counts(&round.stages);
    let round = round.next.counted(Ok(rows)).unwrap();
    assert_eq!(round.collection, "routes");
    let data = store.aggregate(&round.stages);
    let result: QueryResult<Document> = fetch_documents(round.next, data);
    result
}

fn fetch_documents(
    next: bruss_router::query::Fetching<Route>,
    data: Vec<Document>,
) -> QueryResult<Document> {
    let ids: Vec<Route> = data
        .iter()
        .map(|d| {
            Route::new(
                as_number(d.get("id")) as u16,
                0,
                0,
                String::new(),
                d.get_str("type").unwrap().to_string(),
                String::new(),
            )
        })
        .collect();
    let result = next.fetched(Ok(ids)).unwrap();
    QueryResult {
        data: result
            .data
            .into_iter()
            .map(|r| {
                let mut d = Document::new();
                d.insert("id", r.id as i32);
                d.insert("type", r.name);
                d
            })
            .collect(),
        total: result.total,
    }
}

#[test]
fn urban_page_of_two_out_of_five() {
    let store = seeded();
    let pipeline = Pipeline::new(doc1("type", "urban"), &config())
        .sort(doc1("id", 1i32))
        .skip(Some(0))
        .limit(Some(2));
    let result = run(&store, pipeline);
    assert_eq!(result.total, 5);
    assert_eq!(result.data.len(), 2);
    let ids: Vec<i64> = result.data.iter().map(|d| as_number(d.get("id"))).collect();
    assert_eq!(ids, [3, 4]);
    assert!(result.data.iter().all(|d| d.get_str("type") == Ok("urban")));
}

#[test]
fn total_is_at_least_the_page_and_equal_when_the_page_holds_all() {
    let store = seeded();
    for skip in [0u32, 1, 4, 5, 9] {
        for limit in [1u32, 2, 5, 6, 100] {
            let pipeline = Pipeline::new(doc1("type", "urban"), &config())
                .sort(doc1("id", 1i32))
                .skip(Some(skip))
                .limit(Some(limit));
            let result = run(&store, pipeline);
            assert_eq!(result.total, 5);
            assert!(result.total >= result.data.len());
            let left = 5usize.saturating_sub(skip as usize);
            assert_eq!(result.data.len(), left.min(limit as usize));
            if skip == 0 && limit >= 5 {
                assert_eq!(result.data.len(), result.total);
            }
        }
    }
}

#[test]
fn empty_filter_pages_over_the_whole_collection() {
    let store = seeded();
    let pipeline = Pipeline::new(Document::new(), &config()).sort(doc1("id", -1i32)).limit(Some(3));
    let result = run(&store, pipeline);
    assert_eq!(result.total, 8);
    let ids: Vec<i64> = result.data.iter().map(|d| as_number(d.get("id"))).collect();
    assert_eq!(ids, [9, 8, 7]);
}

#[test]
fn no_match_gives_total_zero_and_no_rows() {
    let store = seeded();
    let result = run(&store, Pipeline::new(doc1("type", "rural"), &config()));
    assert_eq!(result.total, 0);
    assert!(result.data.is_empty());
}

#[test]
fn extract_total_reads_the_first_row() {
    assert_eq!(extract_total(&vec![]), 0);
    assert_eq!(extract_total(&vec![5]), 5);
    assert_eq!(extract_total(&vec![5, 9]), 5);
    assert_eq!(extract_total(&vec![0]), 0);
    assert_eq!(extract_total(&vec![-3]), 0);
    assert_eq!(extract_total(&vec![i64::MAX]), i64::MAX as usize);
}

#[test]
fn query_runs_count_stages_first_then_fetch_stages() {
    let built = Pipeline::new(doc1("type", "urban"), &config()).limit(Some(2)).build();
    let count = shown(&built.count);
    let fetch = shown(&built.fetch);
    let round = query::<PlaceName, Stops>(built);
    assert_eq!(round.collection, "stops");
    assert_eq!(shown(&round.stages), count);
    let round = round.next.counted(Ok(vec![5])).unwrap();
    assert_eq!(round.collection, "stops");
    assert_eq!(shown(&round.stages), fetch);
    let result = round
        .next
        .fetched(Ok(vec![PlaceName("a".to_string()), PlaceName("b".to_string())]))
        .unwrap();
    assert_eq!(result.total, 5);
    assert_eq!(result.data, vec![PlaceName("a".to_string()), PlaceName("b".to_string())]);
}

#[test]
fn count_failure_ends_the_query() {
    let built = Pipeline::new(doc1("type", "urban"), &config()).build();
    let round = query::<PlaceName, Stops>(built);
    match round.next.counted(Err(BackendError::Store("connection reset".to_string()))) {
        Err(BackendError::Store(m)) => assert_eq!(m, "connection reset"),
        _ => panic!("the failure of the count must end the query"),
    }
}

#[test]
fn fetch_failure_gives_no_partial_result() {
    let built = Pipeline::new(doc1("type", "urban"), &config()).build();
    let round = query::<PlaceName, Stops>(built).next.counted(Ok(vec![5])).unwrap();
    let outcome = round.next.fetched(Err(BackendError::Decode("bad row".to_string())));
    match outcome {
        Err(BackendError::Decode(m)) => assert_eq!(m, "bad row"),
        _ => panic!("the failure of the fetch must end the query"),
    }
}

#[test]
fn stale_total_is_passed_on_as_counted() {
    let built = Pipeline::new(Document::new(), &config()).build();
    let round = query::<PlaceName, Stops>(built).next.counted(Ok(vec![1])).unwrap();
    let result = round
        .next
        .fetched(Ok(vec![PlaceName("a".to_string()), PlaceName("b".to_string())]))
        .unwrap();
    assert_eq!(result.total, 1);
    assert_eq!(result.data.len(), 2);
}

#[test]
fn query_single_uses_the_bare_filter() {
    let built = Pipeline::new(doc1("id", 12i32), &config()).limit(Some(5)).build();
    let lookup = query_single::<PlaceName, Stops>(built);
    assert_eq!(lookup.collection, "stops");
    assert_eq!(lookup.filter, doc1("id", 12i32));
    let built = Pipeline::new(Document::new(), &config()).build();
    let lookup = query_single::<Route, Route>(built);
    assert_eq!(lookup.collection, "routes");
    assert_eq!(lookup.filter, Document::new());
}

#[test]
fn query_db_builds_the_default_pipeline_for_a_filter() {
    let round = query_db::<PlaceName, Stops, RawDBQuery>(RawDBQuery(doc1("name", "x")), &config());
    assert_eq!(shown(&round.stages), shown(&[doc1("$match", doc1("name", "x")), doc1("$count", "count")]));
    let round = round.next.counted(Ok(vec![])).unwrap();
    assert_eq!(
        shown(&round.stages),
        shown(&[
            doc1("$match", doc1("name", "x")),
            doc1("$sort", doc1("_id", 1i32)),
            doc1("$skip", 0i64),
            doc1("$limit", 25i64),
        ])
    );
    let result = round.next.fetched(Ok(Vec::<PlaceName>::new())).unwrap();
    assert_eq!(result.total, 0);
}

#[test]
fn raw_query_is_its_document() {
    assert_eq!(RawDBQuery(doc1("id", 1i32)).to_doc(), doc1("id", 1i32));
}
