//! JSON values as the signaling messages use them.
//!
//! `serde_json` parses and prints. Contracts speak of [`Json`], the mathematical value that a
//! `serde_json::Value` stands for.
use vstd::prelude::*;

verus! {

/// A JSON number as `serde_json` keeps it apart: a non-negative integer, a negative integer, or
/// the bit pattern of a floating-point number.
pub enum JsonNumber {
    Unsigned(u64),
    Negative(i64),
    Fractional(u64),
}

/// A JSON value. An object is a map from its keys, so the order of its members is no part of it.
pub enum Json {
    Null,
    Bool(bool),
    Number(JsonNumber),
    Text(Seq<char>),
    Array(Seq<Json>),
    Object(Map<Seq<char>, Json>),
}

impl Json {
    /// The member under `key`, or null where there is none or the value is no object.
    pub open spec fn member(self, key: Seq<char>) -> Json {
        match self {
            Json::Object(members) if members.dom().contains(key) => members[key],
            _ => Json::Null,
        }
    }

    /// The characters of a string value.
    pub open spec fn text(self) -> Option<Seq<char>> {
        match self {
            Json::Text(chars) => Some(chars),
            _ => None,
        }
    }

    /// The number, where the value is a non-negative integer.
    pub open spec fn unsigned(self) -> Option<u64> {
        match self {
            Json::Number(JsonNumber::Unsigned(n)) => Some(n),
            _ => None,
        }
    }

    /// The members of an object; a null counts as an object without members.
    pub open spec fn members(self) -> Map<Seq<char>, Json> {
        match self {
            Json::Object(members) => members,
            _ => Map::empty(),
        }
    }

    /// Neither an array nor an object, and not a fractional number.
    pub open spec fn is_plain_scalar(self) -> bool {
        match self {
            Json::Array(_) | Json::Object(_) | Json::Number(JsonNumber::Fractional(_)) => false,
            _ => true,
        }
    }

    /// An object whose members are all plain scalars: the shape of every signaling message.
    pub open spec fn is_flat(self) -> bool {
        match self {
            Json::Object(members) => forall|key: Seq<char>| #[trigger]
                members.dom().contains(key) ==> members[key].is_plain_scalar(),
            _ => false,
        }
    }
}

/// The parsed JSON value of the outside parser.
#[verifier::external_type_specification]
#[verifier::external_body]
pub struct ExValue(serde_json::Value);

/// Why a text is no JSON.
#[verifier::external_type_specification]
#[verifier::external_body]
pub struct ExJsonError(serde_json::Error);

/// What a `serde_json::Value` holds.
pub uninterp spec fn json_of(value: serde_json::Value) -> Json;

/// What `serde_json::from_str` reads from a text: a value, or nothing where the text is no JSON.
pub uninterp spec fn parsed(text: Seq<char>) -> Option<Json>;

/// What `serde_json::Value::to_string` writes for a value.
pub uninterp spec fn printed(value: Json) -> Seq<char>;

/// Calls `serde_json::from_str`. Whether it succeeds, and with which value, depends on the text
/// alone.
#[verifier::external_body]
pub(crate) fn parse(text: &str) -> (r: Result<serde_json::Value, serde_json::Error>)
    ensures
        match r {
            Ok(value) => parsed(text@) == Some(json_of(value)),
            Err(_) => parsed(text@) is None,
        },
{
    serde_json::from_str(text)
}

/// Calls `serde_json::Value::to_string` on an object of plain scalars. What it writes depends on
/// the value alone, and `serde_json::from_str` reads the same value back from it.
#[verifier::external_body]
pub(crate) fn print(value: &serde_json::Value) -> (r: String)
    requires
        json_of(*value).is_flat(),
    ensures
        r@ == printed(json_of(*value)),
        parsed(r@) == Some(json_of(*value)),
{
    value.to_string()
}

/// Indexes a value with a key, `value[key]`: the member, or null where there is none.
#[verifier::external_body]
pub(crate) fn member<'a>(value: &'a serde_json::Value, key: &str) -> (r: &'a serde_json::Value)
    ensures
        json_of(*r) == json_of(*value).member(key@),
{
    &value[key]
}

/// Calls `serde_json::Value::as_str`: the characters of a string, nothing for any other value.
#[verifier::external_body]
pub(crate) fn as_text<'a>(value: &'a serde_json::Value) -> (r: Option<&'a str>)
    ensures
        match r {
            Some(text) => json_of(*value).text() == Some(text@),
            None => json_of(*value).text() is None,
        },
{
    value.as_str()
}

/// Calls `serde_json::Value::as_u64`: the number where the value is a non-negative integer,
/// nothing for any other value.
#[verifier::external_body]
pub(crate) fn as_unsigned(value: &serde_json::Value) -> (r: Option<u64>)
    ensures
        r == json_of(*value).unsigned(),
{
    value.as_u64()
}

/// Calls `serde_json::Value::default`, which is null.
#[verifier::external_body]
pub(crate) fn null() -> (r: serde_json::Value)
    ensures
        json_of(r) == Json::Null,
{
    serde_json::Value::default()
}

/// Calls `serde_json::Value::from` on a string: a string value of the same characters.
#[verifier::external_body]
pub(crate) fn from_text(text: &str) -> (r: serde_json::Value)
    ensures
        json_of(r) == Json::Text(text@),
{
    serde_json::Value::from(text)
}

/// Calls `serde_json::Value::from` on a `u16`: the same number.
#[verifier::external_body]
pub(crate) fn from_index(index: u16) -> (r: serde_json::Value)
    ensures
        json_of(r) == Json::Number(JsonNumber::Unsigned(index as u64)),
{
    serde_json::Value::from(index)
}

/// Assigns through an index, `object[key] = value`: the member under `key` is replaced or added,
/// and a null becomes an object first. On any other value the assignment would panic.
#[verifier::external_body]
pub(crate) fn set_member(object: &mut serde_json::Value, key: &str, value: serde_json::Value)
    requires
        json_of(*old(object)) is Null || json_of(*old(object)) is Object,
    ensures
        json_of(*final(object)) == Json::Object(
            json_of(*old(object)).members().insert(key@, json_of(value)),
        ),
{
    object[key] = value;
}

/// What stands under a key of an object is its member, a string has its own characters, and a
/// non-negative integer its own value. Nothing else has a member, characters or such a value.
pub proof fn law_values_are_read_as_they_stand(value: Json, key: Seq<char>)
    ensures
        match value {
            Json::Object(members) => if members.dom().contains(key) {
                value.member(key) == members[key]
            } else {
                value.member(key) is Null
            },
            _ => value.member(key) is Null,
        },
        match value {
            Json::Text(chars) => value.text() == Some(chars),
            _ => value.text() is None,
        },
        match value {
            Json::Number(JsonNumber::Unsigned(n)) => value.unsigned() == Some(n),
            _ => value.unsigned() is None,
        },
{
}

} // verus!
