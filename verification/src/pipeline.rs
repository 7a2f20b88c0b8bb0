//! The pipeline builder: a filter, a sort order and a page, compiled into the two
//! stage lists that the store runs, one that fetches the page and one that
//! counts every match.

use vstd::prelude::*;
use bson::Document;
use crate::config::{ApiConfig, MAX_LIMIT};
use crate::document::{
    bson_doc, bson_i32, bson_i64, bson_str, entries, one, show, shown, single, stages, Entries,
    Value,
};
use crate::query::DBQuery;
use crate::text::joined;

verus! {

/// A filter with the options of a paged query. The page size is always from 1 to
/// `MAX_LIMIT`.
pub struct Pipeline {
    find: Document,
    limit: i64,
    skip: i64,
    pre_sort: Document,
    sort: Document,
    default_limit: i64,
}

/// What a [`Pipeline`] holds.
pub struct PipelineView {
    /// The filter. Without entries it matches every document.
    pub find: Entries,
    /// The page size.
    pub limit: int,
    /// How many matches are passed over before the page starts.
    pub skip: int,
    /// A stage that computes fields before the sort, or no entries for none.
    pub pre_sort: Entries,
    /// The sort keys with their directions, in order of precedence.
    pub sort: Entries,
    /// The page size that an invalid request falls back to.
    pub default_limit: int,
}

/// The stage lists compiled from a pipeline.
pub struct BuiltView {
    /// The stages that count every match.
    pub count: Seq<Entries>,
    /// The stages that fetch one page.
    pub fetch: Seq<Entries>,
    /// The bare filter, for a lookup of one document; `None` for custom stages.
    pub query: Option<Entries>,
}

/// The sort order of a new pipeline: ascending by `_id`.
pub open spec fn default_sort() -> Entries {
    one("_id"@, Value::Int32(1))
}

/// The `$match` stage for `find`, or nothing where `find` has no entries.
pub open spec fn match_stage(find: Entries) -> Seq<Entries> {
    if find.len() == 0 {
        Seq::empty()
    } else {
        seq![one("$match"@, Value::Doc(find))]
    }
}

/// The stage that computes fields before the sort, or nothing where there is none.
pub open spec fn projection_stage(pre_sort: Entries) -> Seq<Entries> {
    if pre_sort.len() == 0 {
        Seq::empty()
    } else {
        seq![pre_sort]
    }
}

/// The `$sort` stage, or nothing where no sort key is given.
pub open spec fn sort_stage(sort: Entries) -> Seq<Entries> {
    if sort.len() == 0 {
        Seq::empty()
    } else {
        seq![one("$sort"@, Value::Doc(sort))]
    }
}

/// The `$skip` and `$limit` stages of a page.
pub open spec fn page_stages(skip: i64, limit: i64) -> Seq<Entries> {
    seq![one("$skip"@, Value::Int64(skip)), one("$limit"@, Value::Int64(limit))]
}

/// The stage that counts what reaches it, into the field `count`.
pub open spec fn count_stage() -> Entries {
    one("$count"@, Value::Text("count"@))
}

impl PipelineView {
    /// A new pipeline for the filter `find`: sorted by `_id` ascending, nothing
    /// skipped, the configured default page size.
    pub open spec fn initial(find: Entries, config: ApiConfig) -> PipelineView {
        PipelineView {
            find,
            limit: config.default_page(),
            skip: 0,
            pre_sort: Seq::empty(),
            sort: default_sort(),
            default_limit: config.default_page(),
        }
    }

    /// The page size is in range, and nothing is skipped backwards.
    pub open spec fn wf(self) -> bool {
        &&& 1 <= self.default_limit <= MAX_LIMIT
        &&& 1 <= self.limit <= MAX_LIMIT
        &&& 0 <= self.skip <= u32::MAX
    }

    /// The pipeline after `limit(limit)`.
    pub open spec fn with_limit(self, limit: Option<u32>) -> PipelineView {
        match limit {
            None => self,
            Some(v) => if 1 <= v <= MAX_LIMIT {
                PipelineView { limit: v as int, ..self }
            } else {
                PipelineView { limit: self.default_limit, ..self }
            },
        }
    }

    /// The pipeline after `skip(skip)`.
    pub open spec fn with_skip(self, skip: Option<u32>) -> PipelineView {
        match skip {
            None => self,
            Some(v) => PipelineView { skip: v as int, ..self },
        }
    }

    /// The stages that fetch the page: filter, computed fields, sort, skip, limit.
    pub open spec fn fetch_stages(self) -> Seq<Entries> {
        match_stage(self.find) + projection_stage(self.pre_sort) + sort_stage(self.sort)
            + page_stages(self.skip as i64, self.limit as i64)
    }

    /// The stages that count the matches: the filter, then the count.
    pub open spec fn count_stages(self) -> Seq<Entries> {
        match_stage(self.find) + seq![count_stage()]
    }

    /// What `build` compiles the pipeline to.
    pub open spec fn built(self) -> BuiltView {
        BuiltView {
            count: self.count_stages(),
            fetch: self.fetch_stages(),
            query: Some(self.find),
        }
    }
}

/// Whatever page size is asked for, the pipeline's page size stays within 1 and
/// `MAX_LIMIT`: a size within that range is taken, any other gives the default.
pub proof fn lemma_limit_stays_in_range(p: PipelineView, limit: Option<u32>)
    requires
        p.wf(),
    ensures
        p.with_limit(limit).wf(),
        limit matches Some(v) ==> p.with_limit(limit).limit == (if 1 <= v <= MAX_LIMIT {
            v as int
        } else {
            p.default_limit
        }),
        limit is None ==> p.with_limit(limit) == p,
{
}

/// Of two settings of the same option the later one counts.
pub proof fn lemma_later_setting_counts(p: PipelineView, a: Option<u32>, b: u32)
    ensures
        p.with_limit(a).with_limit(Some(b)) == p.with_limit(Some(b)),
        p.with_skip(a).with_skip(Some(b)) == p.with_skip(Some(b)),
        p.with_limit(a).with_skip(Some(b)) == p.with_skip(Some(b)).with_limit(a),
{
}

/// The count stages are the filter of the fetch stages followed by the count, and
/// a filter without entries puts no stage into either list.
pub proof fn lemma_count_follows_filter(p: PipelineView)
    ensures
        p.count_stages().last() == count_stage(),
        p.count_stages().drop_last() == match_stage(p.find),
        p.fetch_stages().subrange(0, match_stage(p.find).len() as int) == match_stage(p.find),
        p.find.len() == 0 ==> p.count_stages() == seq![count_stage()] && p.fetch_stages()
            == projection_stage(p.pre_sort) + sort_stage(p.sort) + page_stages(
            p.skip as i64,
            p.limit as i64,
        ),
        p.built().query == Some(p.find),
{
}

impl View for Pipeline {
    type V = PipelineView;

    closed spec fn view(&self) -> PipelineView {
        PipelineView {
            find: entries(self.find),
            limit: self.limit as int,
            skip: self.skip as int,
            pre_sort: entries(self.pre_sort),
            sort: entries(self.sort),
            default_limit: self.default_limit as int,
        }
    }
}

impl Pipeline {
    #[verifier::type_invariant]
    spec fn in_range(self) -> bool {
        &&& 1 <= self.default_limit <= MAX_LIMIT
        &&& 1 <= self.limit <= MAX_LIMIT
        &&& 0 <= self.skip <= u32::MAX
    }

    /// A pipeline for the filter `find`: sorted by `_id` ascending, nothing skipped,
    /// the configured default page size.
    pub fn new(find: Document, config: &ApiConfig) -> (p: Self)
        ensures
            p@ == PipelineView::initial(entries(find), *config),
            p@.wf(),
    {
        let default_limit = config.default_limit();
        Pipeline {
            find,
            skip: 0,
            limit: default_limit,
            pre_sort: Document::new(),
            sort: single("_id", bson_i32(1)),
            default_limit,
        }
    }

    /// A pipeline for the filter that `query` writes.
    pub fn from_query<Q: DBQuery>(query: Q, config: &ApiConfig) -> (p: Self)
        ensures
            p@ == PipelineView::initial(query.filter(), *config),
            p@.wf(),
    {
        Self::new(query.to_doc(), config)
    }

    /// The page size that this pipeline falls back to.
    pub fn default_limit(&self) -> (v: i64)
        ensures
            v == self@.default_limit,
    {
        self.default_limit
    }

    /// Sets the page size. `None` changes nothing; a size from 1 to `MAX_LIMIT` is
    /// taken as it is; any other resets the page size to the default.
    pub fn limit(self, limit: Option<u32>) -> (p: Self)
        ensures
            p@ == self@.with_limit(limit),
            p@.wf(),
    {
        proof {
            use_type_invariant(&self);
        }
        let mut p = self;
        if let Some(v) = limit {
            if 1 <= v && v as i64 <= MAX_LIMIT {
                p.limit = v as i64;
            } else {
                p.limit = p.default_limit;
            }
        }
        p
    }

    /// Sets how many matches are passed over. `None` changes nothing.
    pub fn skip(self, skip: Option<u32>) -> (p: Self)
        ensures
            p@ == self@.with_skip(skip),
            p@.wf(),
    {
        proof {
            use_type_invariant(&self);
        }
        let mut p = self;
        if let Some(v) = skip {
            p.skip = v as i64;
        }
        p
    }

    /// Sets the stage that computes fields before the sort; an empty document
    /// removes it.
    pub fn pre_sort(self, pre_sort: Document) -> (p: Self)
        ensures
            p@ == (PipelineView { pre_sort: entries(pre_sort), ..self@ }),
            p@.wf(),
    {
        proof {
            use_type_invariant(&self);
        }
        let mut p = self;
        p.pre_sort = pre_sort;
        p
    }

    /// Sets the sort keys; an empty document leaves the matches in the store's order.
    pub fn sort(self, sort: Document) -> (p: Self)
        ensures
            p@ == (PipelineView { sort: entries(sort), ..self@ }),
            p@.wf(),
    {
        proof {
            use_type_invariant(&self);
        }
        let mut p = self;
        p.sort = sort;
        p
    }

    /// Compiles the stage lists.
    pub fn build(self) -> (b: BuiltPipeline)
        ensures
            b@ == self@.built(),
    {
        let mut fetch: Vec<Document> = Vec::new();
        let mut count: Vec<Document> = Vec::new();
        if !self.find.is_empty() {
            fetch.push(single("$match", bson_doc(self.find.clone())));
            count.push(single("$match", bson_doc(self.find.clone())));
        }
        if !self.pre_sort.is_empty() {
            fetch.push(self.pre_sort);
        }
        if !self.sort.is_empty() {
            fetch.push(single("$sort", bson_doc(self.sort)));
        }
        fetch.push(single("$skip", bson_i64(self.skip)));
        fetch.push(single("$limit", bson_i64(self.limit)));
        count.push(single("$count", bson_str("count")));
        assert(stages(fetch@) =~= self@.fetch_stages());
        assert(stages(count@) =~= self@.count_stages());
        BuiltPipeline { count, fetch, query: Some(self.find) }
    }

    /// A pipeline of stages written out by the caller, for queries that no filter
    /// can express.
    pub fn custom(fetch: Vec<Document>, count: Vec<Document>) -> (c: CustomPipeline)
        ensures
            c@ == (BuiltView { count: stages(count@), fetch: stages(fetch@), query: None }),
    {
        CustomPipeline { fetch, count }
    }
}

/// Stage lists written out by the caller. They have no bare filter, so they cannot
/// serve a lookup of one document.
pub struct CustomPipeline {
    fetch: Vec<Document>,
    count: Vec<Document>,
}

impl View for CustomPipeline {
    type V = BuiltView;

    closed spec fn view(&self) -> BuiltView {
        BuiltView { count: stages(self.count@), fetch: stages(self.fetch@), query: None }
    }
}

/// The texts that `bson` prints for `docs`, with a comma and a line break between
/// each two.
pub open spec fn listed(docs: Seq<Document>) -> Seq<char> {
    joined(docs.map_values(|d: Document| shown(d)), ",\n"@)
}

fn list(docs: &Vec<Document>) -> (s: String)
    ensures
        s@ == listed(docs@),
{
    let mut s = String::new();
    let mut i: usize = 0;
    while i < docs.len()
        invariant
            i <= docs.len(),
            s@ == listed(docs@.subrange(0, i as int)),
        decreases docs.len() - i,
    {
        let ghost upto = docs@.subrange(0, i + 1).map_values(|d: Document| shown(d));
        proof {
            assert(upto.drop_last() =~= docs@.subrange(0, i as int).map_values(
                |d: Document| shown(d),
            ));
        }
        if i > 0 {
            s.append(",\n");
        }
        let text = show(&docs[i]);
        s.append(text.as_str());
        i += 1;
    }
    assert(docs@.subrange(0, docs.len() as int) =~= docs@);
    s
}

impl CustomPipeline {
    /// The documents of the fetch stages.
    pub closed spec fn fetch_documents(&self) -> Seq<Document> {
        self.fetch@
    }

    /// The documents of the count stages.
    pub closed spec fn count_documents(&self) -> Seq<Document> {
        self.count@
    }

    /// The pipeline in words, for a log: both stage lists as `bson` prints them.
    pub fn describe(&self) -> (s: String)
        ensures
            s@ == "CustomPipeline {\n\tfetch: [\n"@ + listed(self.fetch_documents())
                + "]\n\tcount: [\n"@ + listed(self.count_documents()) + "]\n}"@,
    {
        let mut s = String::from_str("CustomPipeline {\n\tfetch: [\n");
        let fetch = list(&self.fetch);
        s.append(fetch.as_str());
        s.append("]\n\tcount: [\n");
        let count = list(&self.count);
        s.append(count.as_str());
        s.append("]\n}");
        s
    }

    /// The stage lists as the query engine takes them.
    pub fn build(self) -> (b: BuiltPipeline)
        ensures
            b@ == self@,
            b@.query is None,
    {
        BuiltPipeline { count: self.count, fetch: self.fetch, query: None }
    }
}

/// The stage lists that the query engine runs.
pub struct BuiltPipeline {
    pub count: Vec<Document>,
    pub fetch: Vec<Document>,
    pub query: Option<Document>,
}

impl View for BuiltPipeline {
    type V = BuiltView;

    open spec fn view(&self) -> BuiltView {
        BuiltView {
            count: stages(self.count@),
            fetch: stages(self.fetch@),
            query: match self.query {
                Some(d) => Some(entries(d)),
                None => None,
            },
        }
    }
}

impl BuiltPipeline {
    /// The bare filter, for a lookup of one document. Custom stages have none: to
    /// ask them for it is a mistake of the caller.
    pub fn query(self) -> (d: Document)
        requires
            self@.query is Some,
        ensures
            Some(entries(d)) == self@.query,
    {
        self.query.unwrap()
    }
}

} // verus!
