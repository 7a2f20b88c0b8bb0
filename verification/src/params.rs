//! The parts of a request that select records: identifiers from the path, and the
//! filters that the optional parameters of each listing make.

use vstd::prelude::*;
use bson::{Bson, Document};
use crate::data::AreaType;
use crate::document::{
    append, bson_array, bson_bool, bson_doc, bson_i32, bson_str, entries, one, one_of, single, value,
    values, Entries, Value,
};
use crate::number::{decimal, parse_u16, parsed_u16, to_decimal};
use crate::query::DBQuery;
use crate::text::{split, split_at, texts};

verus! {

/// A value that a request gives as text.
#[derive(Clone, Debug)]
pub struct FromStringFormField<T> {
    inner: T,
}

impl<T> FromStringFormField<T> {
    /// The value that the text was read as.
    pub closed spec fn get(self) -> T {
        self.inner
    }

    pub fn new(inner: T) -> (f: Self)
        ensures
            f.get() == inner,
    {
        FromStringFormField { inner }
    }

    pub fn into_inner(self) -> (inner: T)
        ensures
            inner == self.get(),
    {
        self.inner
    }
}

/// The message for a field whose text cannot be read.
pub open spec fn invalid_conversion(name: Seq<char>, text: Seq<char>) -> Seq<char> {
    "invalid conversion for field "@ + name + ": "@ + text
}

impl FromStringFormField<AreaType> {
    /// Reads the classification that the field `name` gives as `text`, or says
    /// which field cannot be read.
    pub fn from_value(name: &str, text: &str) -> (r: Result<Self, String>)
        ensures
            match AreaType::parse_text(text@) {
                Some(a) => r matches Ok(f) && f.get() == a,
                None => r matches Err(m) && m@ == invalid_conversion(name@, text@),
            },
    {
        match AreaType::parse(text) {
            Some(a) => Ok(FromStringFormField { inner: a }),
            None => {
                let mut m = String::from_str("invalid conversion for field ");
                m.append(name);
                m.append(": ");
                m.append(text);
                Err(m)
            },
        }
    }

    /// The classification as the store holds it: a string.
    pub fn into_bson(self) -> (b: Bson)
        ensures
            value(b) == Value::Text(self.get().text()),
    {
        bson_str(self.inner.as_str())
    }
}

/// An identifier taken from the path of a request.
#[derive(Debug)]
pub struct Id<T> {
    inner: T,
}

/// The text of a path segment could not be read; the reason is inside.
#[derive(Debug)]
pub struct ParamError<T>(pub T);

/// A path segment that should be a number is none.
#[derive(Debug, PartialEq, Eq, Structural, Clone, Copy)]
pub struct InvalidNumber;

/// A path segment that should be a classification is none.
#[derive(Debug, PartialEq, Eq, Structural, Clone, Copy)]
pub struct InvalidAreaType;

impl<T> Id<T> {
    /// The identifier.
    pub closed spec fn get(self) -> T {
        self.inner
    }
}

impl Id<u16> {
    /// Reads a numeric identifier.
    pub fn from_param(param: &str) -> (r: Result<Self, ParamError<InvalidNumber>>)
        ensures
            match parsed_u16(param@) {
                Some(n) => r matches Ok(id) && id.get() == n,
                None => r == Err::<Self, ParamError<InvalidNumber>>(ParamError(InvalidNumber)),
            },
    {
        match parse_u16(param) {
            Some(n) => Ok(Id { inner: n }),
            None => Err(ParamError(InvalidNumber)),
        }
    }
}

impl Id<String> {
    /// Takes the segment as the identifier. This never fails.
    pub fn from_param(param: &str) -> (r: Result<Self, ParamError<InvalidNumber>>)
        ensures
            r matches Ok(id) && id.get()@ == param@,
    {
        Ok(Id { inner: param.to_owned() })
    }
}

impl Id<FromStringFormField<AreaType>> {
    /// Reads a classification.
    pub fn from_param(param: &str) -> (r: Result<Self, ParamError<InvalidAreaType>>)
        ensures
            match AreaType::parse_text(param@) {
                Some(a) => r matches Ok(id) && id.get().get() == a,
                None => r == Err::<Self, ParamError<InvalidAreaType>>(ParamError(InvalidAreaType)),
            },
    {
        match AreaType::parse(param) {
            Some(a) => Ok(Id { inner: FromStringFormField::new(a) }),
            None => Err(ParamError(InvalidAreaType)),
        }
    }
}

/// An identifier that selects records by one field.
pub trait ParamQuery<T>: DBQuery {
    /// The name of the field.
    fn key(&self) -> &'static str;

    /// The value that the field must have.
    fn value(self) -> T;
}

impl ParamQuery<i32> for Id<u16> {
    fn key(&self) -> (k: &'static str)
        ensures
            k@ == "id"@,
    {
        "id"
    }

    fn value(self) -> (v: i32)
        ensures
            v == self.get(),
    {
        self.inner as i32
    }
}

impl DBQuery for Id<u16> {
    open spec fn filter(self) -> Entries {
        one("id"@, Value::Int32(self.get() as i32))
    }

    fn to_doc(self) -> (d: Document) {
        let key = self.key();
        single(key, bson_i32(self.value()))
    }
}

impl ParamQuery<FromStringFormField<AreaType>> for Id<FromStringFormField<AreaType>> {
    fn key(&self) -> (k: &'static str)
        ensures
            k@ == "type"@,
    {
        "type"
    }

    fn value(self) -> (v: FromStringFormField<AreaType>)
        ensures
            v == self.get(),
    {
        self.inner
    }
}

impl DBQuery for Id<FromStringFormField<AreaType>> {
    open spec fn filter(self) -> Entries {
        one("type"@, Value::Text(self.get().get().text()))
    }

    fn to_doc(self) -> (d: Document) {
        let key = self.key();
        single(key, self.value().into_bson())
    }
}

impl ParamQuery<String> for Id<String> {
    fn key(&self) -> (k: &'static str)
        ensures
            k@ == "id"@,
    {
        "id"
    }

    fn value(self) -> (v: String)
        ensures
            v == self.get(),
    {
        self.inner
    }
}

impl DBQuery for Id<String> {
    open spec fn filter(self) -> Entries {
        one("id"@, Value::Text(self.get()@))
    }

    fn to_doc(self) -> (d: Document) {
        let key = self.key();
        let v = self.value();
        single(key, bson_str(v.as_str()))
    }
}

/// The filter for the one record with the numeric `id` in the classification
/// `area_type`.
pub fn located(id: Id<u16>, area_type: Id<FromStringFormField<AreaType>>) -> (d: Document)
    ensures
        entries(d) == seq![
            ("id"@, Value::Int32(id.get() as i32)),
            ("type"@, Value::Text(area_type.get().get().text())),
        ],
{
    proof {
        reveal_strlit("id");
        reveal_strlit("type");
        assert("id"@.len() == 2);
    }
    let mut d = id.to_doc();
    append(&mut d, "type", area_type.value().into_bson());
    d
}

/// The options of a listing of areas.
#[derive(Debug)]
pub struct AreaQuery {
    pub ty: Option<FromStringFormField<AreaType>>,
}

/// The condition on the field `key` that a classification makes, if one is given.
pub open spec fn of_type(key: Seq<char>, ty: Option<FromStringFormField<AreaType>>) -> Entries {
    match ty {
        Some(ty) => one(key, Value::Text(ty.get().text())),
        None => Seq::empty(),
    }
}

impl DBQuery for AreaQuery {
    open spec fn filter(self) -> Entries {
        of_type("type"@, self.ty)
    }

    fn to_doc(self) -> (d: Document) {
        match self.ty {
            Some(ty) => single("type", ty.into_bson()),
            None => Document::new(),
        }
    }
}

/// The options of a listing of stops.
#[derive(Debug)]
pub struct StopQuery {
    pub ty: Option<FromStringFormField<AreaType>>,
}

impl DBQuery for StopQuery {
    open spec fn filter(self) -> Entries {
        of_type("type"@, self.ty)
    }

    fn to_doc(self) -> (d: Document) {
        match self.ty {
            Some(ty) => single("type", ty.into_bson()),
            None => Document::new(),
        }
    }
}

/// The options of a listing of routes.
#[derive(Debug)]
pub struct RouteQuery {
    pub ty: Option<FromStringFormField<AreaType>>,
    pub id: Option<Vec<u16>>,
    pub area: Option<u16>,
}

/// The numbers of `ids` as 32-bit integers.
pub open spec fn id_values(ids: Seq<u16>) -> Seq<Value> {
    ids.map_values(|r: u16| Value::Int32(r as i32))
}

/// The condition that a route is in `area`, if one is given.
pub open spec fn in_area(area: Option<u16>) -> Entries {
    match area {
        Some(area) => one("area"@, Value::Int32(area as i32)),
        None => Seq::empty(),
    }
}

/// The condition that a route is one of `ids`, if any are given.
pub open spec fn in_ids(ids: Option<Vec<u16>>) -> Entries {
    match ids {
        Some(ids) => one("id"@, one_of(id_values(ids@))),
        None => Seq::empty(),
    }
}

fn ids_array(ids: &Vec<u16>) -> (b: Bson)
    ensures
        value(b) == Value::Array(id_values(ids@)),
{
    let mut items: Vec<Bson> = Vec::new();
    let mut i: usize = 0;
    while i < ids.len()
        invariant
            i <= ids.len(),
            values(items@) == id_values(ids@.subrange(0, i as int)),
        decreases ids.len() - i,
    {
        let ghost before = items@;
        items.push(bson_i32(ids[i] as i32));
        assert(values(items@) =~= values(before).push(Value::Int32(ids@[i as int] as i32)));
        i += 1;
    }
    assert(ids@.subrange(0, ids.len() as int) =~= ids@);
    bson_array(items)
}

impl DBQuery for RouteQuery {
    open spec fn filter(self) -> Entries {
        of_type("area_ty"@, self.ty) + in_area(self.area) + in_ids(self.id)
    }

    fn to_doc(self) -> (d: Document) {
        proof {
            reveal_strlit("area_ty");
            reveal_strlit("area");
            reveal_strlit("id");
            assert("area_ty"@.len() == 7);
            assert("area"@.len() == 4);
        }
        let mut d = Document::new();
        let RouteQuery { ty, area, id } = self;
        if let Some(ty) = ty {
            append(&mut d, "area_ty", ty.into_bson());
        }
        if let Some(area) = area {
            append(&mut d, "area", bson_i32(area as i32));
        }
        if let Some(id) = id {
            append(&mut d, "id", bson_doc(single("$in", ids_array(&id))));
        }
        d
    }
}

/// The field of a trip that holds its times at `stop`.
pub open spec fn times_field(stop: u16) -> Seq<char> {
    "times."@ + decimal(stop as nat)
}

/// The condition that a trip calls at `stop`.
pub open spec fn calls_at(stop: u16) -> Value {
    Value::Doc(one(times_field(stop), Value::Doc(one("$exists"@, Value::Bool(true)))))
}

/// The filter for the trips of the classification `ty` that call at `stop`.
pub open spec fn trips_at_stop(ty: AreaType, stop: u16) -> Entries {
    seq![
        ("type"@, Value::Text(ty.text())),
        ("$or"@, Value::Array(seq![calls_at(stop), calls_at(stop)])),
    ]
}

/// The filter for the trips that call at a stop, whose routes are the routes that
/// serve the stop.
pub fn stop_trips_filter(ty: AreaType, stop: u16) -> (d: Document)
    ensures
        entries(d) == trips_at_stop(ty, stop),
{
    proof {
        reveal_strlit("type");
        reveal_strlit("$or");
        assert("type"@.len() == 4);
    }
    let mut key = String::from_str("times.");
    let digits = to_decimal(stop);
    key.append(digits.as_str());
    let mut either: Vec<Bson> = Vec::new();
    either.push(bson_doc(single(key.as_str(), bson_doc(single("$exists", bson_bool(true))))));
    either.push(bson_doc(single(key.as_str(), bson_doc(single("$exists", bson_bool(true))))));
    assert(values(either@) =~= seq![calls_at(stop), calls_at(stop)]);
    let mut d = single("type", bson_str(ty.as_str()));
    append(&mut d, "$or", bson_array(either));
    d
}

/// The filter for the routes with one of the ids `routes`.
pub fn routes_filter(routes: &Vec<u16>) -> (d: Document)
    ensures
        entries(d) == one("id"@, one_of(id_values(routes@))),
{
    single("id", bson_doc(single("$in", ids_array(routes))))
}

/// How the points of a segment are sent.
#[derive(Clone, Copy, Debug, PartialEq, Eq, Structural)]
pub enum FormatSelect {
    /// As an encoded polyline.
    Polyline,
    /// As a list of coordinates.
    Coords,
}

/// The text names no format.
#[derive(Debug, PartialEq, Eq, Structural, Clone, Copy)]
pub struct FormatSelectParseError;

impl FormatSelect {
    /// The format that is used where a request names none.
    pub fn default_format() -> (f: Self)
        ensures
            f == FormatSelect::Coords,
    {
        FormatSelect::Coords
    }

    /// The format that `text` names, if it names one.
    pub open spec fn named(text: Seq<char>) -> Option<FormatSelect> {
        if text == "poly"@ {
            Some(FormatSelect::Polyline)
        } else if text == "coords"@ {
            Some(FormatSelect::Coords)
        } else {
            None
        }
    }

    /// Reads a format: "poly" or "coords".
    pub fn from_param(param: &str) -> (r: Result<Self, ParamError<FormatSelectParseError>>)
        ensures
            match Self::named(param@) {
                Some(f) => r == Ok::<Self, ParamError<FormatSelectParseError>>(f),
                None => r == Err::<Self, ParamError<FormatSelectParseError>>(
                    ParamError(FormatSelectParseError),
                ),
            },
    {
        if crate::text::same_text(param, "poly") {
            Ok(FormatSelect::Polyline)
        } else if crate::text::same_text(param, "coords") {
            Ok(FormatSelect::Coords)
        } else {
            Err(ParamError(FormatSelectParseError))
        }
    }
}

/// Pairs of stops, each the two ends of a segment.
#[derive(Debug)]
pub struct StopPairs(pub Vec<(u16, u16)>);

/// Why a list of stop pairs could not be read.
#[derive(Clone, Copy, Debug, PartialEq, Eq, Structural)]
pub enum StopPairsParseError {
    /// A piece is not two parts with one `-` between.
    InvalidPair,
    /// A part of a pair is no number.
    ParseInt,
}

/// What one piece of a list of stop pairs stands for: nothing where it is empty,
/// else a pair, or the reason why it is none.
pub open spec fn pair_of(piece: Seq<char>) -> Result<Option<(u16, u16)>, StopPairsParseError> {
    if piece.len() == 0 {
        Ok(None)
    } else {
        let parts = split(piece, '-');
        if parts.len() != 2 {
            Err(StopPairsParseError::InvalidPair)
        } else {
            match (parsed_u16(parts[0]), parsed_u16(parts[1])) {
                (Some(a), Some(b)) => Ok(Some((a, b))),
                _ => Err(StopPairsParseError::ParseInt),
            }
        }
    }
}

/// The pairs that `pieces` stand for, in order, or the reason why the first piece
/// that is no pair is none.
pub open spec fn pairs_of(pieces: Seq<Seq<char>>) -> Result<Seq<(u16, u16)>, StopPairsParseError>
    decreases pieces.len(),
{
    if pieces.len() == 0 {
        Ok(Seq::empty())
    } else {
        match pairs_of(pieces.drop_last()) {
            Err(e) => Err(e),
            Ok(before) => match pair_of(pieces.last()) {
                Err(e) => Err(e),
                Ok(None) => Ok(before),
                Ok(Some(p)) => Ok(before.push(p)),
            },
        }
    }
}

/// The condition that a segment runs between the stops of `pair`.
pub open spec fn between(pair: (u16, u16)) -> Value {
    Value::Doc(seq![("from"@, Value::Int32(pair.0 as i32)), ("to"@, Value::Int32(pair.1 as i32))])
}

/// The filter for the segments between the stops of `pairs` in the classification
/// `ty`. Without pairs it matches nothing: all segments are never sent at once.
pub open spec fn segments_between(pairs: Seq<(u16, u16)>, ty: AreaType) -> Entries {
    if pairs.len() > 0 {
        seq![
            ("$or"@, Value::Array(pairs.map_values(|p: (u16, u16)| between(p)))),
            ("type"@, Value::Text(ty.text())),
        ]
    } else {
        one("type"@, Value::Text("nope"@))
    }
}

fn parse_pair(piece: &str) -> (r: Result<Option<(u16, u16)>, StopPairsParseError>)
    ensures
        r == pair_of(piece@),
{
    if piece.unicode_len() == 0 {
        return Ok(None);
    }
    let ss = split_at(piece, '-');
    if ss.len() != 2 {
        return Err(StopPairsParseError::InvalidPair);
    }
    let s0 = match parse_u16(ss[0].as_str()) {
        Some(v) => v,
        None => {
            return Err(StopPairsParseError::ParseInt);
        },
    };
    let s1 = match parse_u16(ss[1].as_str()) {
        Some(v) => v,
        None => {
            return Err(StopPairsParseError::ParseInt);
        },
    };
    Ok(Some((s0, s1)))
}

impl StopPairs {
    /// Reads a list of stop pairs: pairs `a-b` of numbers with commas between.
    /// Empty pieces are passed over.
    pub fn from_param(param: &str) -> (r: Result<Self, ParamError<StopPairsParseError>>)
        ensures
            match pairs_of(split(param@, ',')) {
                Ok(pairs) => r matches Ok(p) && p.0@ == pairs,
                Err(e) => r == Err::<Self, ParamError<StopPairsParseError>>(ParamError(e)),
            },
    {
        let pieces = split_at(param, ',');
        let mut pairs: Vec<(u16, u16)> = Vec::new();
        let mut i: usize = 0;
        while i < pieces.len()
            invariant
                i <= pieces.len(),
                texts(pieces@) == split(param@, ','),
                pairs_of(texts(pieces@).subrange(0, i as int)) == Ok::<
                    Seq<(u16, u16)>,
                    StopPairsParseError,
                >(pairs@),
            decreases pieces.len() - i,
        {
            proof {
                let upto = texts(pieces@).subrange(0, i + 1);
                assert(upto.drop_last() =~= texts(pieces@).subrange(0, i as int));
            }
            match parse_pair(pieces[i].as_str()) {
                Err(e) => {
                    proof {
                        lemma_first_error_stays(texts(pieces@), i + 1);
                    }
                    return Err(ParamError(e));
                },
                Ok(None) => {},
                Ok(Some(p)) => {
                    pairs.push(p);
                },
            }
            i += 1;
        }
        assert(texts(pieces@).subrange(0, pieces.len() as int) =~= texts(pieces@));
        Ok(StopPairs(pairs))
    }

    /// The filter for the segments between these pairs of stops in the
    /// classification `ty`.
    pub fn to_doc(self, ty: FromStringFormField<AreaType>) -> (d: Document)
        ensures
            entries(d) == segments_between(self.0@, ty.get()),
    {
        let StopPairs(pairs) = self;
        if pairs.len() > 0 {
            proof {
                reveal_strlit("from");
                reveal_strlit("to");
                reveal_strlit("$or");
                reveal_strlit("type");
                assert("$or"@.len() == 3);
            }
            let mut either: Vec<Bson> = Vec::new();
            let mut i: usize = 0;
            while i < pairs.len()
                invariant
                    i <= pairs.len(),
                    "from"@.len() == 4,
                    "to"@.len() == 2,
                    values(either@) == pairs@.subrange(0, i as int).map_values(
                        |p: (u16, u16)| between(p),
                    ),
                decreases pairs.len() - i,
            {
                let ghost before = either@;
                let mut pair = single("from", bson_i32(pairs[i].0 as i32));
                append(&mut pair, "to", bson_i32(pairs[i].1 as i32));
                assert(Value::Doc(entries(pair)) =~= between(pairs@[i as int])) by {
                    assert(entries(pair) =~= seq![
                        ("from"@, Value::Int32(pairs@[i as int].0 as i32)),
                        ("to"@, Value::Int32(pairs@[i as int].1 as i32)),
                    ]);
                }
                either.push(bson_doc(pair));
                assert(values(either@) =~= values(before).push(between(pairs@[i as int])));
                i += 1;
            }
            assert(pairs@.subrange(0, pairs.len() as int) =~= pairs@);
            let mut d = single("$or", bson_array(either));
            append(&mut d, "type", ty.into_bson());
            d
        } else {
            single("type", bson_str("nope"))
        }
    }
}

/// Once a piece is no pair, the whole list is none, for the reason of that piece
/// or of an earlier one.
pub proof fn lemma_first_error_stays(pieces: Seq<Seq<char>>, k: int)
    requires
        0 <= k <= pieces.len(),
        pairs_of(pieces.subrange(0, k)) is Err,
    ensures
        pairs_of(pieces) == pairs_of(pieces.subrange(0, k)),
    decreases pieces.len() - k,
{
    if k == pieces.len() {
        assert(pieces.subrange(0, k) =~= pieces);
    } else {
        assert(pieces.drop_last().subrange(0, k) =~= pieces.subrange(0, k));
        lemma_first_error_stays(pieces.drop_last(), k);
    }
}

} // verus!
