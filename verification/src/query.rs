//! The query engine: what is asked of the store for a paged query, in which order,
//! and how the answers become a page with its total.
//!
//! The engine holds no connection. It says which stages to run next and takes what
//! the store answered; the caller makes the round trips.

use vstd::prelude::*;
use bson::Document;
use core::marker::PhantomData;
use crate::config::ApiConfig;
use crate::data::BrussType;
use crate::document::{entries, stages, Entries};
use crate::pipeline::{BuiltPipeline, Pipeline, PipelineView};

verus! {

/// A failure of the store.
#[derive(Debug)]
pub enum BackendError {
    /// A round trip to the store failed.
    Store(String),
    /// The store answered with something that could not be decoded.
    Decode(String),
}

impl BackendError {
    /// The text that came with the failure.
    pub open spec fn text(&self) -> Seq<char> {
        match self {
            BackendError::Store(m) => m@,
            BackendError::Decode(m) => m@,
        }
    }

    pub fn message(&self) -> (m: &str)
        ensures
            m@ == self.text(),
    {
        match self {
            BackendError::Store(m) => m.as_str(),
            BackendError::Decode(m) => m.as_str(),
        }
    }
}

/// Something that can be written as a filter for the store.
pub trait DBQuery: Sized {
    /// The entries of the filter.
    spec fn filter(self) -> Entries;

    fn to_doc(self) -> (d: Document)
        ensures
            entries(d) == self.filter(),
    ;
}

/// A filter that is already a document.
pub struct RawDBQuery(pub Document);

impl DBQuery for RawDBQuery {
    open spec fn filter(self) -> Entries {
        entries(self.0)
    }

    fn to_doc(self) -> (d: Document) {
        self.0
    }
}

/// A shape that the rows of `X`'s collection may be decoded into. Each kind of
/// record is a shape of its own collection; any other pairing has to be declared.
pub trait Queryable<X: BrussType> {
}

impl<X: BrussType> Queryable<X> for X {
}

/// One page of a query's matches, and how many matches there are in all.
#[derive(Debug)]
pub struct QueryResult<T> {
    /// The rows of the page, in the order of the sort.
    pub data: Vec<T>,
    /// The number of matches, whatever the page.
    pub total: usize,
}

/// The total that the count stages' rows stand for: the first row's count, or 0
/// where there is no row. A negative count is taken as 0, and one too large for
/// `usize` as `usize::MAX`.
pub open spec fn total_of(rows: Seq<i64>) -> usize {
    if rows.len() == 0 || rows[0] < 0 {
        0
    } else if rows[0] > usize::MAX {
        usize::MAX
    } else {
        rows[0] as usize
    }
}

/// One round trip that the engine asks for: `stages` are to be run on the
/// collection named `collection`, and the answer goes to `next`.
pub struct Round<S> {
    pub collection: &'static str,
    pub stages: Vec<Document>,
    pub next: S,
}

/// A query for rows of shape `T` whose count stages are with the store.
pub struct Counting<T> {
    collection: &'static str,
    fetch: Vec<Document>,
    shape: PhantomData<T>,
}

/// A query for rows of shape `T` whose fetch stages are with the store.
pub struct Fetching<T> {
    total: usize,
    shape: PhantomData<T>,
}

impl<T> Counting<T> {
    /// The collection that is queried.
    pub closed spec fn collection(&self) -> Seq<char> {
        self.collection@
    }

    /// The stages that will fetch the page.
    pub closed spec fn fetch(&self) -> Seq<Entries> {
        stages(self.fetch@)
    }

    /// Takes the answer to the count stages. A failure ends the query with that
    /// failure, and nothing more is asked of the store. Otherwise the fetch stages
    /// are to be run next, on the same collection.
    pub fn counted(self, outcome: Result<Vec<i64>, BackendError>) -> (r: Result<
        Round<Fetching<T>>,
        BackendError,
    >)
        ensures
            match outcome {
                Ok(rows) => {
                    &&& r matches Ok(round)
                    &&& round.collection@ == self.collection()
                    &&& stages(round.stages@) == self.fetch()
                    &&& round.next.total() == total_of(rows@)
                },
                Err(e) => r == Err::<Round<Fetching<T>>, BackendError>(e),
            },
    {
        match outcome {
            Ok(rows) => {
                let total = extract_total(&rows);
                Ok(
                    Round {
                        collection: self.collection,
                        stages: self.fetch,
                        next: Fetching { total, shape: PhantomData },
                    },
                )
            },
            Err(e) => Err(e),
        }
    }
}

impl<T> Fetching<T> {
    /// The number of matches that the store counted.
    pub closed spec fn total(&self) -> usize {
        self.total
    }

    /// Takes the answer to the fetch stages: the decoded rows become the page, in
    /// the order in which the store sent them. A failure ends the query, with no
    /// part of a result.
    pub fn fetched(self, outcome: Result<Vec<T>, BackendError>) -> (r: Result<
        QueryResult<T>,
        BackendError,
    >)
        ensures
            match outcome {
                Ok(data) => r == Ok::<QueryResult<T>, BackendError>(
                    QueryResult { data, total: self.total() },
                ),
                Err(e) => r == Err::<QueryResult<T>, BackendError>(e),
            },
    {
        match outcome {
            Ok(data) => Ok(QueryResult { data, total: self.total }),
            Err(e) => Err(e),
        }
    }
}

/// The total that the rows of the count stages stand for.
pub fn extract_total(rows: &Vec<i64>) -> (total: usize)
    ensures
        total == total_of(rows@),
{
    if rows.len() == 0 {
        0
    } else {
        let c: i64 = rows[0];
        if c < 0 {
            0
        } else if c as u64 > usize::MAX as u64 {
            usize::MAX
        } else {
            c as usize
        }
    }
}

/// Starts a paged query on the collection of `X` for rows of shape `T`: the count
/// stages are to be run first.
pub fn query<T: Queryable<X>, X: BrussType>(pipeline: BuiltPipeline) -> (r: Round<Counting<T>>)
    ensures
        r.collection@ == X::collection_name(),
        stages(r.stages@) == pipeline@.count,
        r.next.collection() == X::collection_name(),
        r.next.fetch() == pipeline@.fetch,
{
    let collection = X::collection();
    Round {
        collection,
        stages: pipeline.count,
        next: Counting { collection, fetch: pipeline.fetch, shape: PhantomData },
    }
}

/// A lookup of one document of shape `T`: the first document of the collection
/// named `collection` that `filter` matches.
pub struct Lookup<T> {
    pub collection: &'static str,
    pub filter: Document,
    pub shape: PhantomData<T>,
}

/// The lookup of one document on the collection of `X`, by the pipeline's bare
/// filter. The pipeline must have one: custom stages do not, and to pass them here
/// is a mistake of the caller.
pub fn query_single<T: Queryable<X>, X: BrussType>(pipeline: BuiltPipeline) -> (r: Lookup<T>)
    requires
        pipeline@.query is Some,
    ensures
        r.collection@ == X::collection_name(),
        Some(entries(r.filter)) == pipeline@.query,
{
    Lookup { collection: X::collection(), filter: pipeline.query(), shape: PhantomData }
}

/// Starts a paged query for the filter that `query` writes, with the default sort
/// and page.
pub fn query_db<T: Queryable<X>, X: BrussType, Q: DBQuery>(query: Q, config: &ApiConfig) -> (r:
    Round<Counting<T>>)
    ensures
        r.collection@ == X::collection_name(),
        stages(r.stages@) == PipelineView::initial(query.filter(), *config).count_stages(),
        r.next.collection() == X::collection_name(),
        r.next.fetch() == PipelineView::initial(query.filter(), *config).fetch_stages(),
{
    self::query::<T, X>(Pipeline::from_query(query, config).build())
}

/// The rows that a store hands back for the stages `$skip` and `$limit` when
/// `matched` are the matches in the order of the sort.
pub open spec fn page_of<T>(matched: Seq<T>, skip: int, limit: int) -> Seq<T>
    recommends
        0 <= skip,
        0 <= limit,
{
    let from = if skip < matched.len() {
        skip
    } else {
        matched.len() as int
    };
    let to = if from + limit < matched.len() {
        from + limit
    } else {
        matched.len() as int
    };
    matched.subrange(from, to)
}

/// The rows that a store hands back for the stage `$count` when it has found
/// `matches` matches: one row with their number, and none where there is no match.
pub open spec fn count_rows(matches: nat) -> Seq<i64> {
    if matches == 0 {
        Seq::empty()
    } else {
        seq![matches as i64]
    }
}

/// Against a store that answers the count stages and the fetch stages from the
/// same matches, the total is the number of matches and is never less than the
/// number of rows in the page; the page holds as many rows as the page size and
/// the matches after the skipped ones allow; and where nothing is skipped and the
/// page size is at least the number of matches, the page holds all of them.
pub proof fn lemma_total_covers_page<T>(matched: Seq<T>, skip: int, limit: int)
    requires
        0 <= skip,
        0 <= limit,
        matched.len() <= usize::MAX,
        matched.len() <= i64::MAX,
    ensures
        ({
            let total = total_of(count_rows(matched.len()));
            let data = page_of(matched, skip, limit);
            &&& total == matched.len()
            &&& total >= data.len()
            &&& data.len() <= limit
            &&& data.len() == (if matched.len() - skip < 0 {
                0
            } else if matched.len() - skip < limit {
                matched.len() - skip
            } else {
                limit
            })
            &&& skip == 0 && limit >= matched.len() ==> total == data.len() && data == matched
        }),
{
}

} // verus!
