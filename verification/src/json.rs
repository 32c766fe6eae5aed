use vstd::prelude::*;

verus! {

/// What a JSON number holds.
pub enum JsonNumber {
    /// A number stored as an integer, between `i64::MIN` and `u64::MAX`.
    Integer(int),
    /// A number stored in floating point, by the bit pattern of the double.
    Float(u64),
}

/// The mathematical content of a JSON document.
pub enum JsonModel {
    Null,
    Bool(bool),
    Number(JsonNumber),
    String(Seq<char>),
    Array(Seq<JsonModel>),
    Object(Map<Seq<char>, JsonModel>),
}

#[verifier::external_type_specification]
#[verifier::external_body]
pub struct ExJsonValue(serde_json::Value);

/// The content of a `serde_json::Value`.
pub uninterp spec fn json_model(v: serde_json::Value) -> JsonModel;

/// The compact text that `serde_json` prints for a document.
pub uninterp spec fn json_text(m: JsonModel) -> Seq<char>;

/// The member of `m` under `key`, if `m` is an object that has one.
pub open spec fn model_member(m: JsonModel, key: Seq<char>) -> Option<JsonModel> {
    match m {
        JsonModel::Object(entries) => if entries.contains_key(key) {
            Some(entries[key])
        } else {
            None
        },
        _ => None,
    }
}

/// The number in `m`, if `m` is a number stored as a non-negative integer.
pub open spec fn model_unsigned(m: JsonModel) -> Option<int> {
    match m {
        JsonModel::Number(JsonNumber::Integer(i)) => if i >= 0 {
            Some(i)
        } else {
            None
        },
        _ => None,
    }
}

/// The text in `m`, if `m` is a JSON string.
pub open spec fn model_string(m: JsonModel) -> Option<Seq<char>> {
    match m {
        JsonModel::String(s) => Some(s),
        _ => None,
    }
}

/// `serde_json::Value::is_object`: true exactly for a JSON object.
#[verifier::external_body]
pub(crate) fn is_object(v: &serde_json::Value) -> (b: bool)
    ensures
        b == (json_model(*v) is Object),
{
    v.is_object()
}

/// `serde_json::Value::get` with a string index: the member under `key`
/// when `v` is an object that holds the key, nothing otherwise.
#[verifier::external_body]
pub(crate) fn member<'a>(v: &'a serde_json::Value, key: &str) -> (r: Option<&'a serde_json::Value>)
    ensures
        match r {
            Some(x) => model_member(json_model(*v), key@) == Some(json_model(*x)),
            None => model_member(json_model(*v), key@) is None,
        },
{
    v.get(key)
}

/// `serde_json::Value::as_str`: the text of a JSON string, nothing for any
/// other value.
#[verifier::external_body]
pub(crate) fn as_str<'a>(v: &'a serde_json::Value) -> (r: Option<&'a str>)
    ensures
        match r {
            Some(s) => model_string(json_model(*v)) == Some(s@),
            None => model_string(json_model(*v)) is None,
        },
{
    v.as_str()
}

/// `serde_json::Value::as_u64`: the number when it is stored as a
/// non-negative integer, nothing for any other value.
#[verifier::external_body]
pub(crate) fn as_u64(v: &serde_json::Value) -> (r: Option<u64>)
    ensures
        match r {
            Some(n) => model_unsigned(json_model(*v)) == Some(n as int),
            None => model_unsigned(json_model(*v)) is None,
        },
{
    v.as_u64()
}

/// `serde_json::Value`'s `Display`: the compact JSON text of the value.
#[verifier::external_body]
pub(crate) fn to_text(v: &serde_json::Value) -> (s: String)
    ensures
        s@ == json_text(json_model(*v)),
{
    v.to_string()
}

} // verus!
