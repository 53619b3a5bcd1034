//! Best-effort fields: decoding is attempted, and any failure yields the
//! target type's default value instead of an error.  The field itself must
//! still be present — absence is the caller's concern.

use vstd::prelude::*;

use crate::json::{JsonValue, SpecJson};

verus! {

/// What decoding a `u32` field leniently yields: the value of an in-range
/// integer, and the default `0` for everything else.
pub open spec fn spec_u32_or_default(j: SpecJson) -> u32 {
    match j {
        SpecJson::Int(n) => if 0 <= n <= u32::MAX {
            n as u32
        } else {
            0
        },
        _ => 0,
    }
}

/// Decodes a `u32` field, falling back to `0` on any malformed value.
/// This never fails: a well-formed value is returned as it is.
pub fn u32_or_default(v: &JsonValue) -> (r: u32)
    ensures
        r == spec_u32_or_default(v@),
{
    match v {
        JsonValue::Int(n) => {
            if 0 <= *n && *n <= u32::MAX as i128 {
                *n as u32
            } else {
                0
            }
        },
        _ => 0,
    }
}

/// What decoding an `Option<u8>` field leniently yields: `None` for `null`,
/// the value of an in-range integer, and the default `None` for everything
/// else.
pub open spec fn spec_u8_option_or_default(j: SpecJson) -> Option<u8> {
    match j {
        SpecJson::Null => None,
        SpecJson::Int(n) => if 0 <= n <= u8::MAX {
            Some(n as u8)
        } else {
            None
        },
        _ => None,
    }
}

/// Decodes an `Option<u8>` field, falling back to `None` on any malformed
/// value.  This never fails: a well-formed value is returned as it is.
pub fn u8_option_or_default(v: &JsonValue) -> (r: Option<u8>)
    ensures
        r == spec_u8_option_or_default(v@),
{
    match v {
        JsonValue::Null => None,
        JsonValue::Int(n) => {
            if 0 <= *n && *n <= u8::MAX as i128 {
                Some(*n as u8)
            } else {
                None
            }
        },
        _ => None,
    }
}

} // verus!
