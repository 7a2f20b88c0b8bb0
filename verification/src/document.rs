//! BSON documents as the store sees them: the `bson` crate's `Document` and `Bson`,
//! a mathematical model of what they hold, and the few operations on them that the
//! rest of the library builds its filters and pipeline stages with.

use vstd::prelude::*;
use bson::{Bson, Document};

verus! {

/// `bson::Document`, an insertion-ordered map from string keys to BSON values.
#[verifier::external_type_specification]
#[verifier::external_body]
pub struct ExDocument(bson::Document);

/// `bson::Bson`, one BSON value.
#[verifier::external_type_specification]
#[verifier::external_body]
pub struct ExBson(bson::Bson);

/// What a BSON value is, for the kinds of value that this library builds.
pub enum Value {
    /// A 32-bit integer.
    Int32(i32),
    /// A 64-bit integer.
    Int64(i64),
    /// A UTF-8 string.
    Text(Seq<char>),
    /// A boolean.
    Bool(bool),
    /// A UTC date and time, in milliseconds since the Unix epoch.
    DateTime(i64),
    /// An embedded document: its entries in order.
    Doc(Seq<(Seq<char>, Value)>),
    /// An array: its items in order.
    Array(Seq<Value>),
}

/// The entries of a document: key and value, in the document's order.
pub type Entries = Seq<(Seq<char>, Value)>;

/// The entries that a `bson::Document` holds, in its iteration order.
pub uninterp spec fn entries(d: Document) -> Seq<(Seq<char>, Value)>;

/// The value that a `bson::Bson` holds. Of a value of a kind that this library
/// does not build (a floating-point number, an object id and the like) nothing is
/// said: the library passes such values on as they are.
pub uninterp spec fn value(b: Bson) -> Value;

/// The text that `bson` prints for a document.
pub uninterp spec fn shown(d: Document) -> Seq<char>;

/// The entries of `e` after `key` is set to `v`: an entry with that key keeps its
/// place and takes the new value, and a new key goes to the end.
pub open spec fn put(e: Entries, key: Seq<char>, v: Value) -> Entries
    decreases e.len(),
{
    if e.len() == 0 {
        seq![(key, v)]
    } else if e[0].0 == key {
        seq![(key, v)] + e.drop_first()
    } else {
        seq![e[0]] + put(e.drop_first(), key, v)
    }
}

/// Some entry of `e` has the key `key`.
pub open spec fn has_key(e: Entries, key: Seq<char>) -> bool {
    exists|i: int| 0 <= i < e.len() && (#[trigger] e[i]).0 == key
}

/// Setting a key that is not there adds the entry at the end.
pub proof fn lemma_put_new(e: Entries, key: Seq<char>, v: Value)
    requires
        !has_key(e, key),
    ensures
        put(e, key, v) == e.push((key, v)),
    decreases e.len(),
{
    if e.len() > 0 {
        let rest = e.drop_first();
        lemma_put_new(rest, key, v);
    }
}

/// A document with the one entry `key: v`.
pub open spec fn one(key: Seq<char>, v: Value) -> Entries {
    seq![(key, v)]
}

/// The condition that a field is one of `items`.
pub open spec fn one_of(items: Seq<Value>) -> Value {
    Value::Doc(one("$in"@, Value::Array(items)))
}

/// The models of the values in `items`, in order.
pub open spec fn values(items: Seq<Bson>) -> Seq<Value> {
    items.map_values(|b: Bson| value(b))
}

/// The models of the documents in `stages`, in order.
pub open spec fn stages(docs: Seq<Document>) -> Seq<Entries> {
    docs.map_values(|d: Document| entries(d))
}

/// `Document::new` makes a document without entries.
pub assume_specification[ Document::new ]() -> (d: Document)
    ensures
        entries(d) == Seq::<(Seq<char>, Value)>::empty(),
;

/// `Document::is_empty` tells whether the document has no entry.
pub assume_specification[ Document::is_empty ](d: &Document) -> (b: bool)
    ensures
        b == (entries(*d).len() == 0),
;

/// `Document::clone` copies the document, entries and order.
pub assume_specification[ <Document as Clone>::clone ](d: &Document) -> (r: Document)
    ensures
        entries(r) == entries(*d),
;

/// `Document::insert`: sets `key` to `val`. A key that the document already has keeps
/// its place in the order and gets the new value; a new key is added last. The
/// value that was replaced, if any, is dropped.
#[verifier::external_body]
pub(crate) fn insert(d: &mut Document, key: &str, val: Bson)
    ensures
        entries(*final(d)) == put(entries(*old(d)), key@, value(val)),
{
    d.insert(key, val);
}

/// `Bson::from(i32)`: the 32-bit integer `v` as a BSON value.
#[verifier::external_body]
pub(crate) fn bson_i32(v: i32) -> (b: Bson)
    ensures
        value(b) == Value::Int32(v),
{
    Bson::from(v)
}

/// `Bson::from(i64)`: the 64-bit integer `v` as a BSON value.
#[verifier::external_body]
pub(crate) fn bson_i64(v: i64) -> (b: Bson)
    ensures
        value(b) == Value::Int64(v),
{
    Bson::from(v)
}

/// `Bson::from(&str)`: a BSON string with the text of `s`.
#[verifier::external_body]
pub(crate) fn bson_str(s: &str) -> (b: Bson)
    ensures
        value(b) == Value::Text(s@),
{
    Bson::from(s)
}

/// `Bson::from(bool)`: the boolean `v` as a BSON value.
#[verifier::external_body]
pub(crate) fn bson_bool(v: bool) -> (b: Bson)
    ensures
        value(b) == Value::Bool(v),
{
    Bson::from(v)
}

/// `Bson::from(Document)`: the document `d`, embedded as a value.
#[verifier::external_body]
pub(crate) fn bson_doc(d: Document) -> (b: Bson)
    ensures
        value(b) == Value::Doc(entries(d)),
{
    Bson::from(d)
}

/// `Bson::from(Vec<Bson>)`: an array of the given values, in their order.
#[verifier::external_body]
pub(crate) fn bson_array(items: Vec<Bson>) -> (b: Bson)
    ensures
        value(b) == Value::Array(values(items@)),
{
    Bson::from(items)
}

/// `bson::DateTime::from_millis` and `Bson::from`: the instant `millis` milliseconds
/// after the Unix epoch, as a BSON date.
#[verifier::external_body]
pub(crate) fn bson_datetime(millis: i64) -> (b: Bson)
    ensures
        value(b) == Value::DateTime(millis),
{
    Bson::from(bson::DateTime::from_millis(millis))
}

/// `Document::to_string`, which prints the document as `bson` displays it.
#[verifier::external_body]
pub(crate) fn show(d: &Document) -> (s: String)
    ensures
        s@ == shown(*d),
{
    d.to_string()
}

/// A document with the single entry `key: val`.
pub(crate) fn single(key: &str, val: Bson) -> (d: Document)
    ensures
        entries(d) == one(key@, value(val)),
{
    let mut d = Document::new();
    insert(&mut d, key, val);
    d
}

/// Adds the entry `key: val` at the end of a document that has no such key yet.
pub(crate) fn append(d: &mut Document, key: &str, val: Bson)
    requires
        !has_key(entries(*old(d)), key@),
    ensures
        entries(*final(d)) == entries(*old(d)).push((key@, value(val))),
{
    proof {
        lemma_put_new(entries(*d), key@, value(val));
    }
    insert(d, key, val);
}

} // verus!
