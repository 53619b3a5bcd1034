//! The stringified-integer boolean family: the wire strings `"0"` and `"1"`
//! and nothing else.

use vstd::prelude::*;

use crate::custom_serde::InvalidValue;
use crate::strings::str_eq;

verus! {

/// Decodes the wire strings `"0"` and `"1"`; any other string fails with an
/// [`InvalidValue`] error naming the offending string.
pub fn deserialize(s: &str) -> (r: Result<bool, InvalidValue>)
    ensures
        match r {
            Ok(b) => (s@ == "0"@ && b == false) || (s@ == "1"@ && b == true),
            Err(e) => s@ != "0"@ && s@ != "1"@ && e.value@ == s@ && e.expected@ == "zero or one"@,
        },
{
    if str_eq(s, "0") {
        Ok(false)
    } else if str_eq(s, "1") {
        Ok(true)
    } else {
        Err(InvalidValue { value: s.to_owned(), expected: "zero or one" })
    }
}

} // verus!
