//! JSON values of `serde_json`, what they hold, and the few operations on
//! them that the reports use.
//!
//! A [`Value`] is opaque to the proofs. [`tree`] names what it holds, and
//! each operation below says what it does to that tree. All of them describe
//! `serde_json` with its default features: an object is ordered by its keys,
//! and a number is an integer of 64 bits or a finite double.

use serde_json::Value;
use vstd::prelude::*;

verus! {

/// The value type of `serde_json`.
#[verifier::external_type_specification]
#[verifier::external_body]
pub struct ExValue(serde_json::Value);

/// A JSON number. A double is given by its IEEE 754 bit pattern, an integer
/// by its value (`NegInt` is below zero).
pub enum Num {
    PosInt(u64),
    NegInt(i64),
    Float(u64),
}

/// What a JSON value holds.
#[verifier::ext_equal]
pub enum Json {
    Null,
    Bool(bool),
    Number(Num),
    Text(Seq<char>),
    Array(Seq<Json>),
    Object(Map<Seq<char>, Json>),
}

/// What `v` holds.
pub uninterp spec fn tree(v: Value) -> Json;

/// What `serde_json::from_str` reads out of a text: `None` where it reports an
/// error.
pub uninterp spec fn parsed(text: Seq<char>) -> Option<Json>;

/// The bit pattern of the double that `Number::as_f64` makes of a number.
pub uninterp spec fn num_double(n: Num) -> u64;

/// The shortest decimal numeral that `std` prints for a double.
pub uninterp spec fn double_text(bits: u64) -> Seq<char>;

/// The numeral that `std` prints for a double with a sign and two decimals.
pub uninterp spec fn signed_hundredths(bits: u64) -> Seq<char>;

/// The JSON text of a value on one line.
pub uninterp spec fn compact_text(t: Json) -> Seq<char>;

/// The JSON text of a value, indented.
pub uninterp spec fn pretty_text(t: Json) -> Seq<char>;

impl Json {
    /// The member `key` of an object.
    pub open spec fn member(self, key: Seq<char>) -> Option<Json> {
        match self {
            Json::Object(fields) => if fields.contains_key(key) {
                Some(fields[key])
            } else {
                None
            },
            _ => None,
        }
    }

    /// The member `key`, or null where there is none.
    pub open spec fn at(self, key: Seq<char>) -> Json {
        match self.member(key) {
            Some(m) => m,
            None => Json::Null,
        }
    }

    /// The members of an object. Another value has none.
    pub open spec fn fields(self) -> Map<Seq<char>, Json> {
        match self {
            Json::Object(fields) => fields,
            _ => Map::empty(),
        }
    }

    /// A number as a double, by its bit pattern.
    pub open spec fn double(self) -> Option<u64> {
        match self {
            Json::Number(Num::Float(bits)) => Some(bits),
            Json::Number(n) => Some(num_double(n)),
            _ => None,
        }
    }

    /// The characters of a JSON string.
    pub open spec fn text(self) -> Option<Seq<char>> {
        match self {
            Json::Text(s) => Some(s),
            _ => None,
        }
    }

    /// The double with the given bit pattern.
    pub open spec fn from_bits(bits: u64) -> Json {
        Json::Number(Num::Float(bits))
    }
}

/// The double with the given bit pattern is a finite number: its exponent is
/// not the one that stands for infinities and NaNs.
pub open spec fn is_finite(bits: u64) -> bool {
    (bits / 0x10_0000_0000_0000) % 0x800 != 0x7ff
}

/// What each of some values holds.
pub open spec fn trees(vs: Seq<Value>) -> Seq<Json> {
    vs.map_values(|v: Value| tree(v))
}

/// `serde_json::from_str`, into a [`Value`]. The error it reports is dropped.
#[verifier::external_body]
pub(crate) fn parse(text: &str) -> (r: Option<Value>)
    ensures
        match r {
            Some(v) => parsed(text@) == Some(tree(v)),
            None => parsed(text@) is None,
        },
{
    serde_json::from_str(text).ok()
}

/// `Value::get` with a string: the member of an object, and nothing for a
/// missing key or a value that is no object.
#[verifier::external_body]
pub(crate) fn get<'a>(v: &'a Value, key: &str) -> (r: Option<&'a Value>)
    ensures
        match r {
            Some(m) => tree(*v).member(key@) == Some(tree(*m)),
            None => tree(*v).member(key@) is None,
        },
{
    v.get(key)
}

/// `Value::as_str`: the characters of a string, and nothing for other values.
#[verifier::external_body]
pub(crate) fn as_text(v: &Value) -> (r: Option<&str>)
    ensures
        match r {
            Some(s) => tree(*v).text() == Some(s@),
            None => tree(*v).text() is None,
        },
{
    v.as_str()
}

/// `Value::as_bool`: a boolean, and nothing for other values.
#[verifier::external_body]
pub(crate) fn as_bool(v: &Value) -> (r: Option<bool>)
    ensures
        r == match tree(*v) {
            Json::Bool(b) => Some(b),
            _ => None,
        },
{
    v.as_bool()
}

/// `Value::as_f64`, by bit pattern: a double as it is, an integer as the
/// double that stands for it, and nothing for a value that is no number. The
/// double is finite.
#[verifier::external_body]
pub(crate) fn as_bits(v: &Value) -> (r: Option<u64>)
    ensures
        r == match tree(*v) {
            Json::Number(Num::Float(bits)) => Some(bits),
            Json::Number(n) => Some(num_double(n)),
            _ => None,
        },
        r is Some ==> is_finite(r->0),
{
    v.as_f64().map(|x| x.to_bits())
}

/// `Value::as_f64`, put back into a [`Value`] by `Value::from`: a number in
/// the form of a double, and nothing for a value that is no number. (The
/// double is finite, so `Value::from` keeps it.)
#[verifier::external_body]
pub(crate) fn as_double(v: &Value) -> (r: Option<Value>)
    ensures
        match r {
            Some(d) => {
                &&& tree(*v).double() is Some
                &&& tree(d) == Json::from_bits(tree(*v).double()->0)
                &&& is_finite(tree(d).double()->0)
            },
            None => tree(*v).double() is None,
        },
{
    v.as_f64().map(Value::from)
}

/// `Value::as_f64`, printed by `std` with `{}`.
#[verifier::external_body]
pub(crate) fn as_double_text(v: &Value) -> (r: Option<String>)
    ensures
        match r {
            Some(s) => {
                &&& tree(*v).double() is Some
                &&& s@ == double_text(tree(*v).double()->0)
            },
            None => tree(*v).double() is None,
        },
{
    v.as_f64().map(|x| format!("{}", x))
}

/// `Value::as_f64`, printed by `std` with `{:+.2}`.
#[verifier::external_body]
pub(crate) fn as_signed_hundredths(v: &Value) -> (r: Option<String>)
    ensures
        match r {
            Some(s) => {
                &&& tree(*v).double() is Some
                &&& s@ == signed_hundredths(tree(*v).double()->0)
            },
            None => tree(*v).double() is None,
        },
{
    v.as_f64().map(|x| format!("{:+.2}", x))
}

/// `Number::from_f64` of an integer of 32 bits, which a double holds exactly,
/// as a [`Value`]. It is the double that `Number::as_f64` makes of the same
/// integer; the double zero has the bit pattern zero.
#[verifier::external_body]
pub(crate) fn double_from(n: u32) -> (r: Value)
    ensures
        tree(r) == Json::from_bits(num_double(Num::PosInt(n as u64))),
        n == 0 ==> tree(r) == Json::from_bits(0),
{
    Value::from(serde_json::Number::from_f64(n.into()))
}

/// `Value::Null`.
#[verifier::external_body]
pub(crate) fn null() -> (r: Value)
    ensures
        tree(r) == Json::Null,
{
    Value::Null
}

/// `Value::Bool`.
#[verifier::external_body]
pub(crate) fn boolean(b: bool) -> (r: Value)
    ensures
        tree(r) == Json::Bool(b),
{
    Value::Bool(b)
}

/// `Value::from` of a string slice: a JSON string with those characters.
#[verifier::external_body]
pub(crate) fn text(s: &str) -> (r: Value)
    ensures
        tree(r) == Json::Text(s@),
{
    Value::from(s)
}

/// `Value::Array`: the given values in their order.
#[verifier::external_body]
pub(crate) fn array(items: Vec<Value>) -> (r: Value)
    ensures
        tree(r) == Json::Array(trees(items@)),
{
    Value::Array(items)
}

/// Assignment through `Value`'s `IndexMut` with a string: the object gets the
/// member `key`, in place of one that it had; null counts as an empty object.
/// On any other value the assignment panics.
#[verifier::external_body]
pub(crate) fn put(v: &mut Value, key: &str, value: Value)
    requires
        tree(*old(v)) is Null || tree(*old(v)) is Object,
    ensures
        tree(*final(v)) == Json::Object(tree(*old(v)).fields().insert(key@, tree(value))),
{
    v[key] = value;
}

/// `Value::clone`: the copy holds the same.
#[verifier::external_body]
pub(crate) fn copy(v: &Value) -> (r: Value)
    ensures
        tree(r) == tree(*v),
{
    v.clone()
}

/// `Value`'s `Display` with `{}`: the JSON text on one line.
#[verifier::external_body]
pub(crate) fn to_compact(v: &Value) -> (r: String)
    ensures
        r@ == compact_text(tree(*v)),
{
    format!("{}", v)
}

/// `Value`'s `Display` with `{:#}`: the JSON text, indented.
#[verifier::external_body]
pub(crate) fn to_pretty(v: &Value) -> (r: String)
    ensures
        r@ == pretty_text(tree(*v)),
{
    format!("{:#}", v)
}

}
