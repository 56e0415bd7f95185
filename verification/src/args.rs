//! Reading a command's arguments: the typed view of the duck-typed
//! argument object, one small total function per field shape.
use vstd::prelude::*;
use crate::json::{Json, JsonV, spec_get};
use crate::text::{spec_parse_u64, parse_u64};

verus! {

/// The view of an optional argument object.
pub open spec fn spec_opt_json(o: Option<Json>) -> Option<JsonV> {
    match o {
        Some(a) => Some(a@),
        None => None,
    }
}

/// The field `key` of the argument object, if the arguments are present
/// and bind it.
pub open spec fn spec_field(args: Option<JsonV>, key: Seq<char>) -> Option<JsonV> {
    match args {
        Some(a) => spec_get(a, key),
        None => None,
    }
}

/// Looks a field up in the arguments.
pub fn field<'a>(args: &'a Option<Json>, key: &str) -> (r: Option<&'a Json>)
    ensures
        match r {
            Some(f) => spec_field(spec_opt_json(*args), key@) == Some(f@),
            None => spec_field(spec_opt_json(*args), key@) is None,
        },
{
    match args {
        Some(a) => a.get(key),
        None => None,
    }
}

/// A string field: `None` for a missing field or any other shape.
pub open spec fn spec_str_field(args: Option<JsonV>, key: Seq<char>) -> Option<Seq<char>> {
    match spec_field(args, key) {
        Some(JsonV::Str(s)) => Some(s),
        _ => None,
    }
}

/// Reads a string field.
pub fn str_field<'a>(args: &'a Option<Json>, key: &str) -> (r: Option<&'a String>)
    ensures
        match r {
            Some(s) => spec_str_field(spec_opt_json(*args), key@) == Some(s@),
            None => spec_str_field(spec_opt_json(*args), key@) is None,
        },
{
    match field(args, key) {
        Some(Json::Str(s)) => Some(s),
        _ => None,
    }
}

/// A string field parsed as a decimal identifier: `None` for a missing or
/// non-string field or unparsable digits.
pub open spec fn spec_u64_field(args: Option<JsonV>, key: Seq<char>) -> Option<u64> {
    match spec_str_field(args, key) {
        Some(s) => spec_parse_u64(s),
        None => None,
    }
}

/// Reads a string field as a decimal identifier.
pub fn u64_field(args: &Option<Json>, key: &str) -> (r: Option<u64>)
    ensures
        r == spec_u64_field(spec_opt_json(*args), key@),
{
    match str_field(args, key) {
        Some(s) => parse_u64(s.as_str()),
        None => None,
    }
}

/// An identifier field that may be a JSON number or a decimal string;
/// anything else, or unparsable digits, reads as zero.
pub open spec fn spec_id_field(args: Option<JsonV>, key: Seq<char>) -> u64 {
    match spec_field(args, key) {
        Some(JsonV::Num(n)) => n,
        Some(JsonV::Str(s)) => match spec_parse_u64(s) {
            Some(n) => n,
            None => 0,
        },
        _ => 0,
    }
}

/// Reads an identifier field given as a number or a decimal string.
pub fn id_field(args: &Option<Json>, key: &str) -> (r: u64)
    ensures
        r == spec_id_field(spec_opt_json(*args), key@),
{
    match field(args, key) {
        Some(Json::Num(n)) => *n,
        Some(Json::Str(s)) => match parse_u64(s.as_str()) {
            Some(n) => n,
            None => 0,
        },
        _ => 0,
    }
}

/// A boolean field; anything else reads as false.
pub open spec fn spec_bool_field(args: Option<JsonV>, key: Seq<char>) -> bool {
    match spec_field(args, key) {
        Some(JsonV::Bool(b)) => b,
        _ => false,
    }
}

/// Reads a boolean field.
pub fn bool_field(args: &Option<Json>, key: &str) -> (r: bool)
    ensures
        r == spec_bool_field(spec_opt_json(*args), key@),
{
    match field(args, key) {
        Some(Json::Bool(b)) => *b,
        _ => false,
    }
}

/// A number narrowed to 32 signed bits the way an `as` cast narrows: the
/// low 32 bits, read as two's complement.
pub open spec fn spec_trunc_i32(n: u64) -> i32 {
    let m = n % 0x100000000;
    if m >= 0x80000000 {
        (m - 0x100000000) as i32
    } else {
        m as i32
    }
}

fn trunc_i32(n: u64) -> (r: i32)
    ensures
        r == spec_trunc_i32(n),
{
    let m: u64 = n % 0x100000000;
    if m >= 0x80000000 {
        ((m as i64) - 0x100000000i64) as i32
    } else {
        m as i32
    }
}

/// The message-count limit: a number field read as a signed 64-bit value
/// and narrowed to 32 bits, fifty when absent or of another shape.
pub open spec fn spec_limit_field(args: Option<JsonV>) -> i32 {
    match spec_field(args, "limit"@) {
        Some(JsonV::Num(n)) => if n <= i64::MAX {
            spec_trunc_i32(n)
        } else {
            50
        },
        _ => 50,
    }
}

/// Reads the message-count limit.
pub fn limit_field(args: &Option<Json>) -> (r: i32)
    ensures
        r == spec_limit_field(spec_opt_json(*args)),
{
    match field(args, "limit") {
        Some(Json::Num(n)) => {
            if *n <= 0x7fffffffffffffffu64 {
                trunc_i32(*n)
            } else {
                50
            }
        },
        _ => 50,
    }
}

} // verus!
