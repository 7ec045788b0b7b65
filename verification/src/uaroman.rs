//! Romanization of an owned text value.

use vstd::prelude::*;

verus! {

/// Transliterates Ukrainian Cyrillic text by means of the Latin alphabet,
/// consuming the input string.
///
/// The result is the same single-pass romanization as [`crate::romanize`].
pub fn romanize(text: String) -> (result: String)
    ensures
        result@ == crate::engine::romanize_spec(text@),
{
    crate::romanize(text.as_str())
}

} // verus!
