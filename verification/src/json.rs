//! JSON documents: the tree that every value takes on the wire.
//!
//! A document is held as a `serde_json::Value`, and its text is written and
//! read by `serde_json`. What a `Value` holds is known here only through the
//! contracts that this file gives to the functions of `serde_json`. The data
//! model is turned into documents, and read back from them, by verified code
//! that rests on those contracts.

use crate::error::BridgeError;
use crate::text::str_eq;
use vstd::prelude::*;
use vstd::string::*;

verus! {

#[verifier::external_type_specification]
#[verifier::external_body]
pub struct ExValue(serde_json::Value);

#[verifier::external_type_specification]
#[verifier::external_body]
pub struct ExError(serde_json::Error);

/// A JSON number as a mathematical value.
pub enum NumberView {
    /// An integer from zero to `u64::MAX`.
    Unsigned(u64),
    /// An integer below zero.
    Negative(i64),
    /// Any other number: the bits of a finite double.
    Real(u64),
}

/// A JSON document as a mathematical value. An object holds its entries in
/// the order in which they were written.
pub enum JsonView {
    Null,
    Bool(bool),
    Number(NumberView),
    Str(Seq<char>),
    Array(Seq<JsonView>),
    Object(Seq<(Seq<char>, JsonView)>),
}

/// The document that a `Value` holds.
pub uninterp spec fn document(value: serde_json::Value) -> JsonView;

/// The text that `serde_json` prints for a document, in its compact form.
pub uninterp spec fn json_text(document: JsonView) -> Seq<char>;

/// The document that `serde_json` reads from a text, if it reads one.
pub uninterp spec fn json_parse(text: Seq<char>) -> Option<JsonView>;

/// The documents of a sequence of values, one for one.
pub open spec fn documents(items: Seq<serde_json::Value>) -> Seq<JsonView> {
    Seq::new(items.len(), |i: int| document(items[i]))
}

/// The entries of an object that is about to be made, each key with the
/// document under it.
pub open spec fn entry_documents(
    entries: Seq<(String, serde_json::Value)>,
) -> Seq<(Seq<char>, JsonView)> {
    Seq::new(entries.len(), |i: int| (entries[i].0@, document(entries[i].1)))
}

/// The entries of an object that is being read, each key with the document
/// under it.
pub open spec fn borrowed_documents(
    entries: Seq<(&String, &serde_json::Value)>,
) -> Seq<(Seq<char>, JsonView)> {
    Seq::new(entries.len(), |i: int| (entries[i].0@, document(*entries[i].1)))
}

/// Whether no key stands twice among the entries.
pub open spec fn distinct_keys(entries: Seq<(Seq<char>, JsonView)>) -> bool {
    forall|i: int, j: int|
        0 <= i < j < entries.len() ==> (#[trigger] entries[i]).0 != (#[trigger] entries[j]).0
}

/// The first document that an object holds under a key.
pub open spec fn lookup(entries: Seq<(Seq<char>, JsonView)>, key: Seq<char>) -> Option<JsonView>
    decreases entries.len(),
{
    if entries.len() == 0 {
        None
    } else if entries[0].0 == key {
        Some(entries[0].1)
    } else {
        lookup(entries.drop_first(), key)
    }
}

/// The name under which a document gives a variant without payload: the
/// document is the name itself, or an object with `null` under the name as
/// its one entry.
pub open spec fn plain_variant(json: JsonView) -> Option<Seq<char>> {
    match json {
        JsonView::Str(name) => Some(name),
        JsonView::Object(entries) => if entries.len() == 1 && entries[0].1 is Null {
            Some(entries[0].0)
        } else {
            None
        },
        _ => None,
    }
}

/// The documents of a sequence of values, one for one.
pub open spec fn write_all<T>(values: Seq<T>, write: spec_fn(T) -> JsonView) -> Seq<JsonView> {
    Seq::new(values.len(), |i: int| write(values[i]))
}

/// The values that a sequence of documents stands for, one for one. Where a
/// document stands for none, the first such document gives the error.
pub open spec fn read_all<T>(
    items: Seq<JsonView>,
    read: spec_fn(JsonView) -> Result<T, BridgeError>,
) -> Result<Seq<T>, BridgeError>
    decreases items.len(),
{
    if items.len() == 0 {
        Ok(Seq::empty())
    } else {
        match read_all(items.drop_last(), read) {
            Ok(front) => match read(items.last()) {
                Ok(value) => Ok(front.push(value)),
                Err(error) => Err(error),
            },
            Err(error) => Err(error),
        }
    }
}

/// Reading one item more: the items read so far stay, and the next one is
/// added or gives the error.
pub proof fn lemma_read_all_step<T>(
    items: Seq<JsonView>,
    read: spec_fn(JsonView) -> Result<T, BridgeError>,
    i: int,
)
    requires
        0 <= i < items.len(),
    ensures
        read_all(items.take(i + 1), read) == (match read_all(items.take(i), read) {
            Ok(front) => match read(items[i]) {
                Ok(value) => Ok(front.push(value)),
                Err(error) => Err(error),
            },
            Err(error) => Err::<Seq<T>, BridgeError>(error),
        }),
{
    assert(items.take(i + 1).drop_last() =~= items.take(i));
}

/// An error among the first items is the error of the whole sequence.
pub proof fn lemma_read_all_error<T>(
    items: Seq<JsonView>,
    read: spec_fn(JsonView) -> Result<T, BridgeError>,
    k: int,
)
    requires
        0 <= k <= items.len(),
        read_all(items.take(k), read) is Err,
    ensures
        read_all(items, read) == read_all(items.take(k), read),
    decreases items.len() - k,
{
    if k < items.len() {
        lemma_read_all_step(items, read, k);
        lemma_read_all_error(items, read, k + 1);
    } else {
        assert(items.take(k) =~= items);
    }
}

/// Where reading undoes writing for every value of a sequence, reading the
/// documents of the sequence gives the sequence back.
pub proof fn lemma_read_all_written<T>(
    values: Seq<T>,
    write: spec_fn(T) -> JsonView,
    read: spec_fn(JsonView) -> Result<T, BridgeError>,
)
    requires
        forall|i: int|
            0 <= i < values.len() ==> read(write(#[trigger] values[i])) == Ok::<T, BridgeError>(
                values[i],
            ),
    ensures
        read_all(write_all(values, write), read) == Ok::<Seq<T>, BridgeError>(values),
    decreases values.len(),
{
    if values.len() > 0 {
        lemma_read_all_written(values.drop_last(), write, read);
        assert(write_all(values, write).drop_last() =~= write_all(values.drop_last(), write));
        assert(values.drop_last().push(values.last()) =~= values);
    } else {
        assert(values =~= Seq::empty());
    }
}

/// `Value::as_str` of `serde_json`: the string that a value is, if it is
/// one.
pub assume_specification[ serde_json::Value::as_str ](
    value: &serde_json::Value,
) -> (found: Option<&str>)
    ensures
        match found {
            Some(s) => document(*value) == JsonView::Str(s@),
            None => !(document(*value) is Str),
        },
;

/// `Value::as_bool` of `serde_json`: the truth value that a value is, if it
/// is one.
pub assume_specification[ serde_json::Value::as_bool ](
    value: &serde_json::Value,
) -> (found: Option<bool>)
    ensures
        found == (match document(*value) {
            JsonView::Bool(b) => Some(b),
            _ => None,
        }),
;

/// `Value::as_u64` of `serde_json`: the integer that a value is, if it is
/// one from zero to `u64::MAX`.
pub assume_specification[ serde_json::Value::as_u64 ](
    value: &serde_json::Value,
) -> (found: Option<u64>)
    ensures
        found == (match document(*value) {
            JsonView::Number(NumberView::Unsigned(n)) => Some(n),
            _ => None,
        }),
;

/// `Value::is_null` of `serde_json`: whether a value is `null`.
pub assume_specification[ serde_json::Value::is_null ](
    value: &serde_json::Value,
) -> (null: bool)
    ensures
        null == (document(*value) is Null),
;

/// `Value::as_array` of `serde_json`: the items of a value, if it is an
/// array.
pub assume_specification[ serde_json::Value::as_array ](
    value: &serde_json::Value,
) -> (found: Option<&Vec<serde_json::Value>>)
    ensures
        match found {
            Some(items) => document(*value) == JsonView::Array(documents(items@)),
            None => !(document(*value) is Array),
        },
;

/// `Value::as_object` of `serde_json` and `Map::iter` on what it gives: the
/// entries of a value in the order in which the object holds them, if it is
/// an object.
#[verifier::external_body]
pub(crate) fn entries(
    value: &serde_json::Value,
) -> (found: Option<Vec<(&String, &serde_json::Value)>>)
    ensures
        match found {
            Some(entries) => document(*value) == JsonView::Object(borrowed_documents(entries@)),
            None => !(document(*value) is Object),
        },
{
    match value.as_object() {
        Some(object) => Some(object.iter().collect()),
        None => None,
    }
}

/// `Value::from` of `serde_json` on a string slice: the value that is this
/// string.
#[verifier::external_body]
pub(crate) fn from_str(s: &str) -> (value: serde_json::Value)
    ensures
        document(value) == JsonView::Str(s@),
{
    serde_json::Value::from(s)
}

/// `Value::from` of `serde_json` on a `u64`: the value that is this
/// integer.
#[verifier::external_body]
pub(crate) fn from_u64(n: u64) -> (value: serde_json::Value)
    ensures
        document(value) == JsonView::Number(NumberView::Unsigned(n)),
{
    serde_json::Value::from(n)
}

/// `Value::from` of `serde_json` on a `bool`: the value that is this truth
/// value.
#[verifier::external_body]
pub(crate) fn from_bool(b: bool) -> (value: serde_json::Value)
    ensures
        document(value) == JsonView::Bool(b),
{
    serde_json::Value::from(b)
}

/// `Value::from` of `serde_json` on a vector of values: the array of the
/// given items.
#[verifier::external_body]
pub(crate) fn from_items(items: Vec<serde_json::Value>) -> (value: serde_json::Value)
    ensures
        document(value) == JsonView::Array(documents(items@)),
{
    serde_json::Value::from(items)
}

/// `Map::from_iter` of `serde_json` on the given entries, as an object.
/// Built to preserve order, the map keeps keys in the order in which they
/// come in, so where no key comes twice the object holds the entries as
/// they are given.
#[verifier::external_body]
pub(crate) fn from_entries(
    entries: Vec<(String, serde_json::Value)>,
) -> (value: serde_json::Value)
    requires
        distinct_keys(entry_documents(entries@)),
    ensures
        document(value) == JsonView::Object(entry_documents(entries@)),
{
    serde_json::Value::Object(serde_json::Map::from_iter(entries))
}

/// `serde_json::to_string` on a value. The text is a function of the
/// document that the value holds.
#[verifier::external_body]
pub(crate) fn print(value: &serde_json::Value) -> (text: String)
    ensures
        text@ == json_text(document(*value)),
{
    serde_json::to_string(value).unwrap_or_default()
}

/// `serde_json::from_str` into a value. Whether a text is read, and as which
/// document, is a function of the text.
#[verifier::external_body]
pub(crate) fn parse(text: &str) -> (read: Result<serde_json::Value, serde_json::Error>)
    ensures
        match read {
            Ok(value) => json_parse(text@) == Some(document(value)),
            Err(_) => json_parse(text@) is None,
        },
{
    serde_json::from_str(text)
}

/// The object with a single entry: a tag and the document under it.
pub(crate) fn tagged(tag: &str, payload: serde_json::Value) -> (value: serde_json::Value)
    ensures
        document(value) == JsonView::Object(seq![(tag@, document(payload))]),
{
    let mut entries: Vec<(String, serde_json::Value)> = Vec::new();
    entries.push((String::from_str(tag), payload));
    assert(entry_documents(entries@) =~= seq![(tag@, document(payload))]);
    from_entries(entries)
}

/// The first document that the entries of an object hold under a key.
pub(crate) fn field<'a>(
    entries: &Vec<(&'a String, &'a serde_json::Value)>,
    key: &str,
) -> (found: Option<&'a serde_json::Value>)
    ensures
        match found {
            Some(value) => lookup(borrowed_documents(entries@), key@) == Some(document(*value)),
            None => lookup(borrowed_documents(entries@), key@) is None,
        },
{
    let ghost docs = borrowed_documents(entries@);
    let mut i: usize = 0;
    assert(docs.skip(0) =~= docs);
    while i < entries.len()
        invariant
            i <= entries.len(),
            docs == borrowed_documents(entries@),
            lookup(docs, key@) == lookup(docs.skip(i as int), key@),
        decreases entries.len() - i,
    {
        assert(docs.skip(i as int)[0] == docs[i as int]);
        if str_eq(entries[i].0.as_str(), key) {
            return Some(entries[i].1);
        }
        proof {
            assert(docs.skip(i as int).drop_first() =~= docs.skip(i + 1));
        }
        i += 1;
    }
    None
}

/// The name of a variant without payload, if the document gives one.
pub(crate) fn as_plain_variant(value: &serde_json::Value) -> (found: Option<&str>)
    ensures
        match found {
            Some(name) => plain_variant(document(*value)) == Some(name@),
            None => plain_variant(document(*value)) is None,
        },
{
    if let Some(name) = value.as_str() {
        return Some(name);
    }
    match entries(value) {
        Some(entries) => {
            if entries.len() == 1 && entries[0].1.is_null() {
                Some(entries[0].0.as_str())
            } else {
                None
            }
        },
        None => None,
    }
}

} // verus!
