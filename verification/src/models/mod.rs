//! The typed records of the upstream resources, with their exact wire-name
//! mappings, and the trait every one of them implements.

pub mod item;
pub mod orphanage;
pub mod smmo_player;
pub mod world_boss;

use vstd::prelude::*;

use crate::json::{JsonValue, SpecJson};

verus! {

/// A record-level decode failure: the field at fault and what was wrong
/// with it.
#[derive(Debug, Clone)]
pub enum FieldError {
    /// A required field is missing from the payload.
    Missing { field: &'static str },
    /// A field is present but holds a value of the wrong shape.
    Invalid { field: &'static str },
    /// The payload as a whole has the wrong shape for the record.
    NotAnObject,
}

/// An upstream resource: a typed record with a stable name for diagnostics,
/// a mathematical view, and a decoding from the wire's JSON shape.
pub trait SmmoModel: Sized + View {
    /// The type's name, as it appears in diagnostic messages.
    spec fn spec_type_label() -> Seq<char>;

    /// What the record decodes to from a given JSON document, if anything.
    spec fn spec_from_json(j: SpecJson) -> Option<Self::V>;

    /// The type's name, as it appears in diagnostic messages.
    fn type_label() -> (s: &'static str)
        ensures
            s@ == Self::spec_type_label(),
    ;

    /// Decodes the record from a parsed JSON document.
    fn from_json(v: &JsonValue) -> (r: Result<Self, FieldError>)
        ensures
            match r {
                Ok(m) => Self::spec_from_json(v@) == Some(m@),
                Err(e) => Self::spec_from_json(v@) is None,
            },
    ;
}

/// The value of an in-range `u32` field.
pub open spec fn spec_get_u32(j: SpecJson, key: Seq<char>) -> Option<u32> {
    match crate::json::spec_get(j, key) {
        Some(SpecJson::Int(n)) => if 0 <= n <= u32::MAX {
            Some(n as u32)
        } else {
            None
        },
        _ => None,
    }
}

/// The value of an in-range `u64` field.
pub open spec fn spec_get_u64(j: SpecJson, key: Seq<char>) -> Option<u64> {
    match crate::json::spec_get(j, key) {
        Some(SpecJson::Int(n)) => if 0 <= n <= u64::MAX {
            Some(n as u64)
        } else {
            None
        },
        _ => None,
    }
}

/// The value of an in-range `i64` field.
pub open spec fn spec_get_i64(j: SpecJson, key: Seq<char>) -> Option<i64> {
    match crate::json::spec_get(j, key) {
        Some(SpecJson::Int(n)) => if i64::MIN <= n <= i64::MAX {
            Some(n as i64)
        } else {
            None
        },
        _ => None,
    }
}

/// The text of a string field.
pub open spec fn spec_get_str(j: SpecJson, key: Seq<char>) -> Option<Seq<char>> {
    match crate::json::spec_get(j, key) {
        Some(SpecJson::Str(s)) => Some(s),
        _ => None,
    }
}

/// The value of a stringified-boolean field: the strings `"0"` and `"1"`.
pub open spec fn spec_get_str_bool(j: SpecJson, key: Seq<char>) -> Option<bool> {
    match spec_get_str(j, key) {
        Some(s) => if s == "0"@ {
            Some(false)
        } else if s == "1"@ {
            Some(true)
        } else {
            None
        },
        None => None,
    }
}

/// The value of an integer-boolean field: the numbers `0` and `1`.
pub open spec fn spec_get_int_bool(j: SpecJson, key: Seq<char>) -> Option<bool> {
    match crate::json::spec_get(j, key) {
        Some(SpecJson::Int(n)) => if n == 0 {
            Some(false)
        } else if n == 1 {
            Some(true)
        } else {
            None
        },
        _ => None,
    }
}

/// Reads a stringified-boolean field through the string-integer decoder.
pub fn get_str_bool(v: &JsonValue, key: &'static str) -> (r: Result<bool, FieldError>)
    ensures
        match r {
            Ok(b) => spec_get_str_bool(v@, key@) == Some(b),
            Err(e) => spec_get_str_bool(v@, key@) is None,
        },
{
    proof {
        reveal_strlit("0");
        reveal_strlit("1");
        assert(("0"@)[0] == '0');
        assert(("1"@)[0] == '1');
    }
    match v.get(key) {
        Some(f) => match f {
            JsonValue::Str(s) => match crate::custom_serde::bool_from_int_str::deserialize(
                s.as_str(),
            ) {
                Ok(b) => Ok(b),
                Err(e) => Err(FieldError::Invalid { field: key }),
            },
            _ => Err(FieldError::Invalid { field: key }),
        },
        None => Err(FieldError::Missing { field: key }),
    }
}

/// Reads an integer-boolean field through the numeric-integer decoder.
pub fn get_int_bool(v: &JsonValue, key: &'static str) -> (r: Result<bool, FieldError>)
    ensures
        match r {
            Ok(b) => spec_get_int_bool(v@, key@) == Some(b),
            Err(e) => spec_get_int_bool(v@, key@) is None,
        },
{
    match v.get(key) {
        Some(f) => match f {
            JsonValue::Int(n) => match crate::custom_serde::bool_from_int::deserialize(*n) {
                Ok(b) => Ok(b),
                Err(e) => Err(FieldError::Invalid { field: key }),
            },
            _ => Err(FieldError::Invalid { field: key }),
        },
        None => Err(FieldError::Missing { field: key }),
    }
}

/// Reads an in-range `u32` field.
pub fn get_u32(v: &JsonValue, key: &'static str) -> (r: Result<u32, FieldError>)
    ensures
        match r {
            Ok(n) => spec_get_u32(v@, key@) == Some(n),
            Err(e) => spec_get_u32(v@, key@) is None,
        },
{
    match v.get(key) {
        Some(f) => match f {
            JsonValue::Int(n) => {
                if 0 <= *n && *n <= u32::MAX as i128 {
                    Ok(*n as u32)
                } else {
                    Err(FieldError::Invalid { field: key })
                }
            },
            _ => Err(FieldError::Invalid { field: key }),
        },
        None => Err(FieldError::Missing { field: key }),
    }
}

/// Reads an in-range `u64` field.
pub fn get_u64(v: &JsonValue, key: &'static str) -> (r: Result<u64, FieldError>)
    ensures
        match r {
            Ok(n) => spec_get_u64(v@, key@) == Some(n),
            Err(e) => spec_get_u64(v@, key@) is None,
        },
{
    match v.get(key) {
        Some(f) => match f {
            JsonValue::Int(n) => {
                if 0 <= *n && *n <= u64::MAX as i128 {
                    Ok(*n as u64)
                } else {
                    Err(FieldError::Invalid { field: key })
                }
            },
            _ => Err(FieldError::Invalid { field: key }),
        },
        None => Err(FieldError::Missing { field: key }),
    }
}

/// Reads an in-range `i64` field.
pub fn get_i64(v: &JsonValue, key: &'static str) -> (r: Result<i64, FieldError>)
    ensures
        match r {
            Ok(n) => spec_get_i64(v@, key@) == Some(n),
            Err(e) => spec_get_i64(v@, key@) is None,
        },
{
    match v.get(key) {
        Some(f) => match f {
            JsonValue::Int(n) => {
                if i64::MIN as i128 <= *n && *n <= i64::MAX as i128 {
                    Ok(*n as i64)
                } else {
                    Err(FieldError::Invalid { field: key })
                }
            },
            _ => Err(FieldError::Invalid { field: key }),
        },
        None => Err(FieldError::Missing { field: key }),
    }
}

/// Reads a string field.
pub fn get_string(v: &JsonValue, key: &'static str) -> (r: Result<String, FieldError>)
    ensures
        match r {
            Ok(s) => spec_get_str(v@, key@) == Some(s@),
            Err(e) => spec_get_str(v@, key@) is None,
        },
{
    match v.get(key) {
        Some(f) => match f {
            JsonValue::Str(s) => Ok(s.clone()),
            _ => Err(FieldError::Invalid { field: key }),
        },
        None => Err(FieldError::Missing { field: key }),
    }
}

} // verus!
