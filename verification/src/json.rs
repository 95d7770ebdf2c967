//! The library's own model of a JSON document.
//!
//! The search API answers with a JSON body and the tool's arguments arrive as
//! a JSON object; the logic here reads both. A value is held as plain data:
//! text, arrays, an object as an ordered list of key/value pairs, and a
//! number as the three readings the logic uses. The caller that obtains the
//! document parses it and mirrors it into this type one node for one node.

use vstd::prelude::*;

verus! {

/// A JSON number, held as the readings the formatting logic needs.
///
/// A reading that does not apply to the number is `None`: `int_value` is the
/// number as a signed 64-bit integer when it is integral and fits, and
/// `uint_value` the same for an unsigned one. `two_decimals` is the number's
/// numeric value rendered with exactly two fractional digits (so `49.5`
/// carries `"49.50"`); the price lines of the output show it verbatim.
#[derive(Debug, PartialEq)]
pub struct JsonNumber {
    pub int_value: Option<i64>,
    pub uint_value: Option<u64>,
    pub two_decimals: String,
}

/// A JSON value.
///
/// An object keeps its pairs in order; a key lookup takes the first pair
/// whose key matches.
#[derive(Debug, PartialEq)]
pub enum Json {
    Null,
    Bool(bool),
    Num(JsonNumber),
    Str(String),
    Arr(Vec<Json>),
    Obj(Vec<(String, Json)>),
}

/// The first value among `fields[i..]` whose key is `key`.
pub open spec fn spec_lookup(fields: Seq<(String, Json)>, key: Seq<char>, i: int) -> Option<Json>
    decreases fields.len() - i,
{
    if i < 0 || i >= fields.len() {
        None
    } else if fields[i].0@ == key {
        Some(fields[i].1)
    } else {
        spec_lookup(fields, key, i + 1)
    }
}

/// The value under `key` when `j` is an object that has it; `None` otherwise.
pub open spec fn spec_field(j: Json, key: Seq<char>) -> Option<Json> {
    match j {
        Json::Obj(fields) => spec_lookup(fields@, key, 0),
        _ => None,
    }
}

/// The text under `key` when it holds a string; `dflt` otherwise.
pub open spec fn spec_str_field_or(j: Json, key: Seq<char>, dflt: Seq<char>) -> Seq<char> {
    match spec_field(j, key) {
        Some(Json::Str(s)) => s@,
        _ => dflt,
    }
}

/// The value under `key`, as serde's `Value::get` resolves a string index:
/// present only on an object that has the key.
pub fn json_field<'a>(j: &'a Json, key: &str) -> (r: Option<&'a Json>)
    ensures
        match spec_field(*j, key@) {
            Some(v) => r matches Some(rv) && *rv == v,
            None => r is None,
        },
{
    match j {
        Json::Obj(fields) => {
            let k: String = key.to_owned();
            let mut i: usize = 0;
            while i < fields.len()
                invariant
                    i <= fields.len(),
                    k@ == key@,
                    *j == Json::Obj(*fields),
                    spec_lookup(fields@, key@, 0) == spec_lookup(fields@, key@, i as int),
                decreases fields.len() - i,
            {
                if fields[i].0 == k {
                    proof {
                        assert(spec_lookup(fields@, key@, i as int) == Some(fields@[i as int].1));
                        assert(spec_field(*j, key@) == Some(fields@[i as int].1));
                    }
                    return Some(&fields[i].1);
                }
                i = i + 1;
            }
            proof {
                assert(spec_lookup(fields@, key@, i as int) is None);
            }
            None
        },
        _ => None,
    }
}

/// The text under `key` when it holds a string; `dflt` otherwise.
pub fn str_field_or<'a>(j: &'a Json, key: &str, dflt: &'a str) -> (r: &'a str)
    ensures
        r@ == spec_str_field_or(*j, key@, dflt@),
{
    match json_field(j, key) {
        Some(Json::Str(s)) => s.as_str(),
        _ => dflt,
    }
}

} // verus!
