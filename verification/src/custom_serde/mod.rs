//! Lenient field decoders for the irregular wire encodings of the upstream
//! API: stringified booleans, integer booleans, empty strings standing for
//! absent values, best-effort fields that fall back to a default, and the
//! custom date-time format.

pub mod bool_from_int;
pub mod bool_from_int_str;
pub mod date_time_option;
pub mod empty_string_option;
pub mod ok_or_default;

use vstd::prelude::*;

verus! {

/// A field-level decode failure: the offending wire value and a short
/// description of what was expected.
#[derive(Debug, Clone)]
pub struct InvalidValue {
    pub value: String,
    pub expected: &'static str,
}

} // verus!
