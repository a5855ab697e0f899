//! JSON documents, as `serde_json` holds them.

use serde_json::Value;
use vstd::prelude::*;

verus! {

/// A JSON document as a mathematical value. An object has no order: it maps
/// each member's name to its value.
pub enum Json {
    Null,
    Bool(bool),
    /// A number without fraction or exponent that fits in 64 bits, signed or
    /// not. A negative zero is none of these.
    Integer(int),
    /// Any other number, as the bits of its double-precision form.
    Fraction(u64),
    Text(Seq<char>),
    Array(Seq<Json>),
    Object(Map<Seq<char>, Json>),
}

/// The object without members.
pub open spec fn no_members() -> Map<Seq<char>, Json> {
    Map::empty()
}

/// A text that may be missing; then it is null.
pub open spec fn optional_text(text: Option<String>) -> Json {
    match text {
        Some(text) => Json::Text(text@),
        None => Json::Null,
    }
}

/// A list of texts.
pub open spec fn text_list(texts: Seq<String>) -> Json {
    Json::Array(texts.map_values(|text: String| Json::Text(text@)))
}

/// `serde_json::Value`, whose contents [`document`] names.
#[verifier::external_type_specification]
#[verifier::external_body]
pub struct ExValue(serde_json::Value);

/// `serde_json::Map`, whose contents [`members`] names.
#[verifier::external_type_specification]
#[verifier::external_body]
#[verifier::reject_recursive_types(K)]
#[verifier::reject_recursive_types(V)]
pub struct ExMap<K, V>(serde_json::Map<K, V>);

/// `serde_json::Error`, which is only carried.
#[verifier::external_type_specification]
#[verifier::external_body]
pub struct ExJsonError(serde_json::Error);

/// The document that a `serde_json::Value` holds.
pub uninterp spec fn document(value: serde_json::Value) -> Json;

/// The members that a `serde_json::Map` holds.
pub uninterp spec fn members(map: serde_json::Map<String, serde_json::Value>) -> Map<Seq<char>, Json>;

/// `serde_json::Map::new` makes a map without members.
pub assume_specification[ serde_json::Map::<String, Value>::new ]() -> (empty: serde_json::Map<
    String,
    Value,
>)
    ensures
        members(empty) == no_members(),
;

/// `serde_json::Map::insert` sets a member, and returns the value that the
/// member had before, if it was there.
pub assume_specification[ serde_json::Map::<String, Value>::insert ](
    map: &mut serde_json::Map<String, Value>,
    k: String,
    v: Value,
) -> (previous: Option<Value>)
    ensures
        members(*final(map)) == members(*old(map)).insert(k@, document(v)),
        match previous {
            Some(value) => members(*old(map)).dom().contains(k@) && members(*old(map))[k@]
                == document(value),
            None => !members(*old(map)).dom().contains(k@),
        },
;

/// `serde_json::Value::as_object_mut` lends the members of an object, and
/// nothing of any other document.
pub assume_specification[ serde_json::Value::as_object_mut ](value: &mut Value) -> (lent: Option<
    &mut serde_json::Map<String, Value>,
>)
    ensures
        match lent {
            Some(map) => {
                &&& document(*old(value)) == Json::Object(members(*map))
                &&& document(*final(value)) == Json::Object(members(*final(map)))
            },
            None => !(document(*old(value)) is Object) && *final(value) == *old(value),
        },
;

/// `serde_json::Value::as_str` gives the text of a text, and nothing of any
/// other document.
pub assume_specification[ serde_json::Value::as_str ](value: &Value) -> (text: Option<&str>)
    ensures
        match text {
            Some(text) => document(*value) == Json::Text(text@),
            None => !(document(*value) is Text),
        },
;

/// `serde_json::Value::clone` gives a value that holds the same document.
pub assume_specification[ <serde_json::Value as Clone>::clone ](value: &Value) -> (copy: Value)
    ensures
        document(copy) == document(*value),
;

/// `serde_json::Value::get` with a name gives that member of an object, and
/// nothing where there is no such member or no object.
#[verifier::external_body]
pub(crate) fn member<'a>(value: &'a Value, name: &str) -> (found: Option<&'a Value>)
    ensures
        match found {
            Some(inner) => document(*value) matches Json::Object(all) && all.dom().contains(name@)
                && all[name@] == document(*inner),
            None => document(*value) matches Json::Object(all) ==> !all.dom().contains(name@),
        },
{
    value.get(name)
}

/// `serde_json::Value::Null`.
#[verifier::external_body]
pub(crate) fn null_value() -> (value: Value)
    ensures
        document(value) == Json::Null,
{
    Value::Null
}

/// `serde_json::Value::Bool`.
#[verifier::external_body]
pub(crate) fn bool_value(flag: bool) -> (value: Value)
    ensures
        document(value) == Json::Bool(flag),
{
    Value::Bool(flag)
}

/// `serde_json::Value::Number` of a `serde_json::Number` made from an integer.
#[verifier::external_body]
pub(crate) fn integer_value(number: i64) -> (value: Value)
    ensures
        document(value) == Json::Integer(number as int),
{
    Value::Number(number.into())
}

/// `serde_json::Value::String`.
#[verifier::external_body]
pub(crate) fn text_value(text: String) -> (value: Value)
    ensures
        document(value) == Json::Text(text@),
{
    Value::String(text)
}

/// `serde_json::Value::Array`.
#[verifier::external_body]
pub(crate) fn array_value(items: Vec<Value>) -> (value: Value)
    ensures
        document(value) == Json::Array(items@.map_values(|item: Value| document(item))),
{
    Value::Array(items)
}

/// `serde_json::Value::Object`.
#[verifier::external_body]
pub(crate) fn object_value(map: serde_json::Map<String, Value>) -> (value: Value)
    ensures
        document(value) == Json::Object(members(map)),
{
    Value::Object(map)
}

/// What `serde_json::from_slice` reads bytes as; nothing where it refuses.
pub uninterp spec fn json_reading(bytes: Seq<u8>) -> Option<Json>;

/// `serde_json::from_slice`, into a `serde_json::Value`.
#[verifier::external_body]
pub(crate) fn read_document(bytes: &[u8]) -> (result: Result<Value, serde_json::Error>)
    ensures
        match result {
            Ok(value) => json_reading(bytes@) == Some(document(value)),
            Err(_) => json_reading(bytes@) is None,
        },
{
    serde_json::from_slice(bytes)
}

/// What `serde_json::to_string` writes a document as.
pub uninterp spec fn json_writing(document: Json) -> Seq<char>;

/// `serde_json::to_string`, with the message of a failure. It writes members in
/// the order of their names and escapes control characters, so that a document
/// takes a single line. It fails only for keys that are no texts and for types
/// that refuse to be written, and a `serde_json::Value` is neither.
#[verifier::external_body]
pub(crate) fn write_document(value: &Value) -> (result: Result<String, String>)
    ensures
        match result {
            Ok(text) => text@ == json_writing(document(*value)) && !text@.contains('\n'),
            Err(_) => false,
        },
{
    serde_json::to_string(value).map_err(|error| error.to_string())
}

/// A text that may be missing; then it is null.
pub(crate) fn optional_text_value(text: &Option<String>) -> (value: Value)
    ensures
        document(value) == optional_text(*text),
{
    match text {
        Some(text) => text_value(text.clone()),
        None => null_value(),
    }
}

/// A list of texts.
pub(crate) fn text_list_value(texts: &Vec<String>) -> (value: Value)
    ensures
        document(value) == text_list(texts@),
{
    let mut items: Vec<Value> = Vec::new();
    let mut i: usize = 0;
    while i < texts.len()
        invariant
            i <= texts.len(),
            items@.len() == i,
            forall|k: int| 0 <= k < i ==> document(#[trigger] items@[k]) == Json::Text(texts@[k]@),
        decreases texts.len() - i,
    {
        items.push(text_value(texts[i].clone()));
        i = i + 1;
    }
    proof {
        assert(items@.map_values(|item: Value| document(item)) =~= texts@.map_values(
            |text: String| Json::Text(text@),
        ));
    }
    array_value(items)
}

} // verus!
