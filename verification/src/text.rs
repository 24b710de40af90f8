//! Comparing owned text with literals.

use vstd::prelude::*;

verus! {

/// Whether `value` holds exactly the characters of `text`.
pub fn is_text(value: &String, text: &str) -> (same: bool)
    ensures
        same == (value@ == text@),
{
    let expected = text.to_owned();
    *value == expected
}

} // verus!
