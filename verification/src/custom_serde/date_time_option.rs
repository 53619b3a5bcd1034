//! The optional custom date-time field: `null` means "no value", and a
//! string must spell the custom `YYYY-MM-DD HH:MM:SS` pattern.

use vstd::prelude::*;

use crate::custom_serde::InvalidValue;
use crate::datetime::{format_rfc3339, parse_custom, spec_format_rfc3339, spec_parse_custom};
use crate::datetime::UtcDateTime;
use crate::json::{JsonValue, SpecJson};

verus! {

/// What the optional custom-pattern field decodes to: `None` for `null`,
/// the spelled instant for a well-formed pattern string, and an error for
/// everything else.
pub open spec fn spec_decode_option_datefmt(j: SpecJson) -> Option<Option<UtcDateTime>> {
    match j {
        SpecJson::Null => Some(None),
        SpecJson::Str(s) => match spec_parse_custom(s) {
            Some(dt) => Some(Some(dt)),
            None => None,
        },
        _ => None,
    }
}

/// Decodes an optional field in the custom `YYYY-MM-DD HH:MM:SS` pattern:
/// an absent (`null`) field is "no value" rather than a pattern parse.
pub fn deserialize_option_datefmt(v: &JsonValue) -> (r: Result<Option<UtcDateTime>, InvalidValue>)
    ensures
        match r {
            Ok(o) => spec_decode_option_datefmt(v@) == Some(o),
            Err(e) => spec_decode_option_datefmt(v@) is None && e.expected@
                == "a date-time in the form YYYY-MM-DD HH:MM:SS, or null"@,
        },
{
    match v {
        JsonValue::Null => Ok(None),
        JsonValue::Str(s) => match parse_custom(s.as_str()) {
            Some(dt) => Ok(Some(dt)),
            None => Err(
                InvalidValue {
                    value: s.clone(),
                    expected: "a date-time in the form YYYY-MM-DD HH:MM:SS, or null",
                },
            ),
        },
        _ => Err(
            InvalidValue {
                value: crate::json_print::json_to_string(v),
                expected: "a date-time in the form YYYY-MM-DD HH:MM:SS, or null",
            },
        ),
    }
}

/// Renders an instant in the RFC 3339 form for re-serialisation.
pub fn serialize_option_datefmt(time: &UtcDateTime) -> (s: String)
    ensures
        s@ == spec_format_rfc3339(*time),
{
    format_rfc3339(time)
}

} // verus!
