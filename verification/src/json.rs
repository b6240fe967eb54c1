//! JSON documents: what a `serde_json::Value` holds, and the operations on it that the store's
//! rules use.

use vstd::prelude::*;

verus! {

/// `serde_json::Value`, the JSON values that records carry.
#[verifier::external_type_specification]
#[verifier::external_body]
pub struct ExValue(serde_json::Value);

/// A JSON document as a mathematical value. A whole number stands for itself; any other number
/// stands as the text that `serde_json` prints for it.
pub enum Json {
    Null,
    Bool(bool),
    Integer(int),
    Float(Seq<char>),
    Str(Seq<char>),
    Array(Seq<Json>),
    Object(Map<Seq<char>, Json>),
}

/// The document that a JSON value holds.
pub uninterp spec fn json_of(value: serde_json::Value) -> Json;

/// The text that `serde_json` writes for a document.
pub uninterp spec fn json_text(document: Json) -> Seq<char>;

/// The document that `serde_json` reads from a text, or the message with which it refuses it.
pub uninterp spec fn parsed_json(text: Seq<char>) -> Result<Json, Seq<char>>;

/// The documents of a list of JSON values.
pub open spec fn documents_of(values: Seq<serde_json::Value>) -> Seq<Json> {
    values.map_values(|value: serde_json::Value| json_of(value))
}

/// The document of a JSON value that may be absent.
pub open spec fn document_option(value: Option<serde_json::Value>) -> Option<Json> {
    match value {
        Some(value) => Some(json_of(value)),
        None => None,
    }
}

impl Json {
    /// The field `key` of an object.
    pub open spec fn field(self, key: Seq<char>) -> Option<Json> {
        if self is Object && self->Object_0.contains_key(key) {
            Some(self->Object_0[key])
        } else {
            None
        }
    }

    /// The text of a string.
    pub open spec fn text(self) -> Option<Seq<char>> {
        match self {
            Json::Str(text) => Some(text),
            _ => None,
        }
    }

    /// The text of the field `key` of an object, where that field is a string.
    pub open spec fn text_field(self, key: Seq<char>) -> Option<Seq<char>> {
        match self.field(key) {
            Some(field) => field.text(),
            None => None,
        }
    }

    /// The fields of an object; `Null` counts as an object without fields.
    pub open spec fn fields(self) -> Map<Seq<char>, Json> {
        match self {
            Json::Object(fields) => fields,
            _ => Map::empty(),
        }
    }

    /// The object with the field `key` set.
    pub open spec fn with_field(self, key: Seq<char>, field: Json) -> Json {
        Json::Object(self.fields().insert(key, field))
    }

    /// Whether fields can be set: the document is an object or `Null`.
    pub open spec fn takes_fields(self) -> bool {
        self is Object || self is Null
    }

    /// Whether the document holds no number but whole ones, nests at most `depth` arrays and
    /// objects, and no object in it begins with the name that `serde_json` reserves for raw JSON:
    /// where an object has a field of that name, it has one of a smaller name, too.
    pub open spec fn is_plain(self, depth: nat) -> bool
        decreases depth,
    {
        match self {
            Json::Float(_) => false,
            Json::Array(items) => depth > 0 && forall|i: int|
                0 <= i < items.len() ==> (#[trigger] items[i]).is_plain((depth - 1) as nat),
            Json::Object(fields) => {
                &&& depth > 0
                &&& fields.contains_key(RAW_VALUE_KEY@) ==> exists|key: Seq<char>| #[trigger]
                    fields.contains_key(key) && precedes(key, RAW_VALUE_KEY@)
                &&& forall|key: Seq<char>|
                    fields.contains_key(key) ==> (#[trigger] fields[key]).is_plain(
                        (depth - 1) as nat,
                    )
            },
            _ => true,
        }
    }
}

/// Whether a text comes before another one in the order of their characters, as strings are
/// ordered.
pub open spec fn precedes(left: Seq<char>, right: Seq<char>) -> bool
    decreases left.len(),
{
    if left.len() == 0 || right.len() == 0 {
        left.len() == 0 && right.len() > 0
    } else if left[0] == right[0] {
        precedes(left.skip(1), right.skip(1))
    } else {
        left[0] < right[0]
    }
}

/// The field name that `serde_json` reserves: an object that begins with it is read as the JSON
/// text that the field holds.
pub const RAW_VALUE_KEY: &'static str = "$serde_json::private::RawValue";

/// How many arrays and objects may be nested in a text that `serde_json` reads.
pub const MAX_DEPTH: u8 = 127;

/// `serde_json::Value::clone` gives a value that holds the same document.
pub assume_specification[ <serde_json::Value as Clone>::clone ](value: &serde_json::Value) -> (copy:
    serde_json::Value)
    ensures
        json_of(copy) == json_of(*value),
;

/// `serde_json::Value::as_str` gives the text of a string, and nothing for other values.
pub assume_specification<'a>[ serde_json::Value::as_str ](value: &'a serde_json::Value) -> (text:
    Option<&'a str>)
    ensures
        match text {
            Some(found) => json_of(*value) == Json::Str(found@),
            None => !(json_of(*value) is Str),
        },
;

/// `serde_json::Value::is_object` tells objects from other values.
pub assume_specification[ serde_json::Value::is_object ](value: &serde_json::Value) -> (answer: bool)
    ensures
        answer == (json_of(*value) is Object),
;

/// `serde_json::Value::get` with a text as index gives the field of that name, if the value is an
/// object that has it.
#[verifier::external_body]
pub(crate) fn get_field<'a>(value: &'a serde_json::Value, key: &str) -> (field: Option<
    &'a serde_json::Value,
>)
    ensures
        match field {
            Some(found) => json_of(*value).field(key@) == Some(json_of(*found)),
            None => json_of(*value).field(key@) is None,
        },
{
    value.get(key)
}

/// Assignment through `serde_json`'s `IndexMut` with a text as index sets the field of that name.
/// It makes `Null` an object first and panics on a value that is neither.
#[verifier::external_body]
pub(crate) fn set_field(value: &mut serde_json::Value, key: &str, field: serde_json::Value)
    requires
        json_of(*old(value)).takes_fields(),
    ensures
        json_of(*final(value)) == json_of(*old(value)).with_field(key@, json_of(field)),
{
    value[key] = field;
}

/// `serde_json::Map::remove`, on the map that `as_object_mut` gives for an object, removes the
/// field of that name.
#[verifier::external_body]
pub(crate) fn remove_field(value: &mut serde_json::Value, key: &str)
    requires
        json_of(*old(value)) is Object,
    ensures
        json_of(*final(value)) == Json::Object(json_of(*old(value)).fields().remove(key@)),
{
    value.as_object_mut().unwrap().remove(key);
}

/// `serde_json::Value::String` makes the JSON string of a text.
#[verifier::external_body]
pub(crate) fn text_value(text: &str) -> (value: serde_json::Value)
    ensures
        json_of(value) == Json::Str(text@),
{
    serde_json::Value::String(text.to_owned())
}

/// `serde_json::Value::Bool` makes the JSON boolean of a truth value.
#[verifier::external_body]
pub(crate) fn bool_value(truth: bool) -> (value: serde_json::Value)
    ensures
        json_of(value) == Json::Bool(truth),
{
    serde_json::Value::Bool(truth)
}

/// `serde_json::Map::new` makes an object without fields.
#[verifier::external_body]
pub(crate) fn empty_object() -> (value: serde_json::Value)
    ensures
        json_of(value) == Json::Object(Map::empty()),
{
    serde_json::Value::Object(serde_json::Map::new())
}

/// `serde_json::Value::Array` of an empty vector makes an array without items.
#[verifier::external_body]
pub(crate) fn empty_array() -> (value: serde_json::Value)
    ensures
        json_of(value) == Json::Array(Seq::empty()),
{
    serde_json::Value::Array(Vec::new())
}

/// `serde_json::from_str` reads a text as a JSON value. Where it refuses the text, the result is
/// the error's message.
#[verifier::external_body]
pub(crate) fn parse_json(text: &str) -> (value: Result<serde_json::Value, String>)
    ensures
        match value {
            Ok(value) => parsed_json(text@) == Ok::<Json, Seq<char>>(json_of(value)),
            Err(message) => parsed_json(text@) == Err::<Json, Seq<char>>(message@),
        },
{
    serde_json::from_str(text).map_err(|err| err.to_string())
}

/// `serde_json::to_string` writes a JSON value as a text, the fields of an object in the order of
/// their names. It succeeds on every `serde_json::Value`; the text is never empty, and reading it
/// gives the document back where every number is whole, the nesting stays within the reader's
/// limit and no object begins with the reserved field name `RAW_VALUE_KEY`. Of other documents
/// nothing is said: nesting beyond the limit is refused by the reader, and an object that begins
/// with that name is read as something else.
#[verifier::external_body]
pub(crate) fn write_json(value: &serde_json::Value) -> (text: Result<String, String>)
    ensures
        match text {
            Ok(written) => {
                &&& written@ == json_text(json_of(*value))
                &&& written@.len() > 0
                &&& json_of(*value).is_plain(MAX_DEPTH as nat) ==> parsed_json(written@) == Ok::<
                    Json,
                    Seq<char>,
                >(json_of(*value))
            },
            Err(_) => false,
        },
{
    serde_json::to_string(value).map_err(|err| err.to_string())
}

/// Whether two documents are equal to `serde_json`: they agree, but for the sign of a zero that
/// is no whole number.
pub open spec fn alike(left: Json, right: Json) -> bool
    decreases left,
{
    match (left, right) {
        (Json::Float(a), Json::Float(b)) => a == b || ((a == "0.0"@ || a == "-0.0"@) && (b
            == "0.0"@ || b == "-0.0"@)),
        (Json::Array(a), Json::Array(b)) => a.len() == b.len() && forall|i: int|
            0 <= i < a.len() ==> alike(#[trigger] a[i], b[i]),
        (Json::Object(a), Json::Object(b)) => a.dom() == b.dom() && forall|key: Seq<char>|
            a.contains_key(key) ==> alike(#[trigger] a[key], b[key]),
        _ => left == right,
    }
}

/// `==` on `serde_json::Value` compares the documents.
#[verifier::external_body]
pub(crate) fn same_value(left: &serde_json::Value, right: &serde_json::Value) -> (same: bool)
    ensures
        same == alike(json_of(*left), json_of(*right)),
{
    left == right
}

} // verus!
