//! Small string helper for configuration values.

use vstd::prelude::*;
use vstd::string::StrSliceExecFns;

verus! {

/// Drop the first and the last character of a string: configuration values
/// arrive wrapped in quote characters, which this strips. A string of
/// fewer than two characters becomes empty.
pub fn rem_first_and_last(value: &str) -> (r: &str)
    ensures
        value@.len() >= 2 ==> r@ == value@.subrange(1, value@.len() - 1),
        value@.len() < 2 ==> r@.len() == 0,
{
    let n = value.unicode_len();
    if n >= 2 {
        value.substring_char(1, n - 1)
    } else {
        value.substring_char(0, 0)
    }
}

} // verus!
