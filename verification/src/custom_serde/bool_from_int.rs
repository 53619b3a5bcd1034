//! The numeric-integer boolean family: the wire numbers `0` and `1` and
//! nothing else.

use vstd::prelude::*;

use crate::custom_serde::InvalidValue;
use crate::strings::i128_to_string;

verus! {

/// Decodes the wire numbers `0` and `1`; any other number fails with an
/// [`InvalidValue`] error naming the offending number.
pub fn deserialize(n: i128) -> (r: Result<bool, InvalidValue>)
    ensures
        match r {
            Ok(b) => (n == 0 && b == false) || (n == 1 && b == true),
            Err(e) => n != 0 && n != 1 && e.value@ == crate::strings::int_dec_str(n as int)
                && e.expected@ == "zero or one"@,
        },
{
    if n == 0 {
        Ok(false)
    } else if n == 1 {
        Ok(true)
    } else {
        Err(InvalidValue { value: i128_to_string(n), expected: "zero or one" })
    }
}

} // verus!
