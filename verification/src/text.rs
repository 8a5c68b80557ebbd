//! Trimming of raw input lines.
//!
//! Every recognizer in this crate matches a line only after its leading and
//! trailing whitespace is removed. The trimmed form of a line is named by the
//! uninterpreted function [`trim_of`], so that every contract in the crate
//! speaks of one and the same trimmed sequence of characters.

use vstd::prelude::*;

verus! {

/// The characters of `s` with leading and trailing whitespace removed,
/// as `str::trim` computes it.
pub uninterp spec fn trim_of(s: Seq<char>) -> Seq<char>;

/// Relies on `str::trim`: it removes leading and trailing whitespace and its
/// result depends on the characters of `s` alone; an empty string stays empty.
#[verifier::external_body]
pub(crate) fn trimmed(s: &str) -> (r: String)
    ensures
        r@ == trim_of(s@),
        s@.len() == 0 ==> r@.len() == 0,
{
    s.trim().to_string()
}

} // verus!
