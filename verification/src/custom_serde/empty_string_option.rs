//! Optional text fields that the upstream API represents as `""` instead of
//! `null`: an empty string means "absent".

use vstd::prelude::*;

verus! {

/// Converts an empty string to `None` and any non-empty string to
/// `Some` of that string.
pub fn deserialize(s: &str) -> (r: Option<String>)
    ensures
        match r {
            Some(t) => s@.len() > 0 && t@ == s@,
            None => s@.len() == 0,
        },
{
    if s.is_empty() {
        None
    } else {
        Some(s.to_owned())
    }
}

} // verus!
