//! JSON documents, as the outside parser represents them.
//!
//! A document is a `serde_json::Value`. Nothing in this crate looks inside
//! one directly: the functions at the top of this file are the only ones that
//! touch the outside representation, and each says what it assumes of the
//! outside code. Everything below them is proved from those statements.

use vstd::prelude::*;

verus! {

/// A JSON document of any shape.
#[verifier::external_type_specification]
#[verifier::external_body]
pub struct ExJsonValue(serde_json::Value);

/// The document that a byte string parses to, if it is JSON at all.
pub uninterp spec fn json_parse(bytes: Seq<u8>) -> Option<serde_json::Value>;

/// The text of a JSON string; `None` for every other kind of document.
pub uninterp spec fn json_text(doc: serde_json::Value) -> Option<Seq<char>>;

/// The value of a JSON number that is a non-negative integer below 2^64;
/// `None` for every other kind of document.
pub uninterp spec fn json_unsigned(doc: serde_json::Value) -> Option<u64>;

/// The elements of a JSON array, in order; empty for every other kind of
/// document.
pub uninterp spec fn json_items(doc: serde_json::Value) -> Seq<serde_json::Value>;

/// The members of a JSON object by name; empty for every other kind of
/// document.
pub uninterp spec fn json_members(doc: serde_json::Value) -> Map<Seq<char>, serde_json::Value>;

/// The members that a list of name and value pairs leaves in an object: for a
/// name that occurs more than once, the last pair counts.
pub open spec fn members_of(pairs: Seq<(String, serde_json::Value)>) -> Map<
    Seq<char>,
    serde_json::Value,
>
    decreases pairs.len(),
{
    if pairs.len() == 0 {
        Map::empty()
    } else {
        members_of(pairs.drop_last()).insert(pairs.last().0@, pairs.last().1)
    }
}

/// Parses a byte string with `serde_json::from_slice`. The outcome depends on
/// the bytes alone: it is `Ok` exactly where `json_parse` names a document,
/// and then it is that document.
#[verifier::external_body]
pub(crate) fn parse_json(bytes: &[u8]) -> (r: Result<serde_json::Value, serde_json::Error>)
    ensures
        r is Ok <==> json_parse(bytes@) is Some,
        r matches Ok(doc) ==> json_parse(bytes@) == Some(doc),
{
    serde_json::from_slice::<serde_json::Value>(bytes)
}

/// Looks a member up with `serde_json::Value::get`: the member of that name
/// where the document is an object that has one, `None` otherwise.
#[verifier::external_body]
pub(crate) fn json_get<'a>(doc: &'a serde_json::Value, name: &str) -> (r: Option<
    &'a serde_json::Value,
>)
    ensures
        r is Some <==> json_members(*doc).contains_key(name@),
        r matches Some(member) ==> *member == json_members(*doc)[name@],
{
    doc.get(name)
}

/// Reads a JSON string with `serde_json::Value::as_str`: the text where the
/// document is a string, `None` otherwise.
#[verifier::external_body]
pub(crate) fn json_as_str<'a>(doc: &'a serde_json::Value) -> (r: Option<&'a str>)
    ensures
        r is Some <==> json_text(*doc) is Some,
        r matches Some(text) ==> json_text(*doc) == Some(text@),
{
    doc.as_str()
}

/// `Clone::clone` of a document yields an equal document.
pub assume_specification[ <serde_json::Value as Clone>::clone ](
    doc: &serde_json::Value,
) -> (r: serde_json::Value)
    ensures
        r == *doc,
;

/// Makes a JSON string with `Value::from`.
#[verifier::external_body]
pub(crate) fn json_string(text: &str) -> (r: serde_json::Value)
    ensures
        json_text(r) == Some(text@),
{
    serde_json::Value::from(text)
}

/// Makes a JSON number with `Value::from`.
#[verifier::external_body]
pub(crate) fn json_number(value: u64) -> (r: serde_json::Value)
    ensures
        json_unsigned(r) == Some(value),
{
    serde_json::Value::from(value)
}

/// Makes a JSON array with `Value::from`: the elements are the given
/// documents, in the given order.
#[verifier::external_body]
pub(crate) fn json_array(items: Vec<serde_json::Value>) -> (r: serde_json::Value)
    ensures
        json_items(r) == items@,
{
    serde_json::Value::from(items)
}

/// Makes a JSON object with `Value::from_iter`: the pairs are inserted in
/// order, so a later pair replaces an earlier one of the same name.
#[verifier::external_body]
pub(crate) fn json_object(pairs: Vec<(String, serde_json::Value)>) -> (r: serde_json::Value)
    ensures
        json_members(r) == members_of(pairs@),
{
    serde_json::Value::from_iter(pairs)
}

/// Appending a pair to a list inserts its value under its name.
pub proof fn lemma_members_of_push(
    pairs: Seq<(String, serde_json::Value)>,
    pair: (String, serde_json::Value),
)
    ensures
        members_of(pairs.push(pair)) == members_of(pairs).insert(pair.0@, pair.1),
{
    assert(pairs.push(pair).drop_last() =~= pairs);
}

/// Appends the pair of a name and a document to a list of members.
pub(crate) fn push_member(
    pairs: &mut Vec<(String, serde_json::Value)>,
    name: &str,
    value: serde_json::Value,
)
    ensures
        members_of(final(pairs)@) == members_of(old(pairs)@).insert(name@, value),
{
    let owned = String::from_str(name);
    proof {
        lemma_members_of_push(pairs@, (owned, value));
    }
    pairs.push((owned, value));
}

/// The member of an object by name, if the document is an object and has it.
pub open spec fn spec_member(doc: serde_json::Value, name: Seq<char>) -> Option<
    serde_json::Value,
> {
    if json_members(doc).contains_key(name) {
        Some(json_members(doc)[name])
    } else {
        None
    }
}

/// The text of the member of that name, if there is such a member and it is a
/// JSON string.
pub open spec fn spec_text_member(doc: serde_json::Value, name: Seq<char>) -> Option<Seq<char>> {
    match spec_member(doc, name) {
        Some(member) => json_text(member),
        None => None,
    }
}

/// Reads the member of that name as text.
pub fn text_member(doc: &serde_json::Value, name: &str) -> (r: Option<String>)
    ensures
        r is Some <==> spec_text_member(*doc, name@) is Some,
        r matches Some(text) ==> spec_text_member(*doc, name@) == Some(text@),
{
    match json_get(doc, name) {
        Some(member) => match json_as_str(member) {
            Some(text) => Some(String::from_str(text)),
            None => None,
        },
        None => None,
    }
}

/// Reads the member of that name, whatever kind of document it is.
pub fn document_member(doc: &serde_json::Value, name: &str) -> (r: Option<serde_json::Value>)
    ensures
        r == spec_member(*doc, name@),
{
    match json_get(doc, name) {
        Some(member) => Some(member.clone()),
        None => None,
    }
}

} // verus!
