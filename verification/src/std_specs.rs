//! Contracts for the few std functions that vstd leaves unspecified.

use vstd::prelude::*;

verus! {

/// `String::push` appends one character (as std documents).
pub assume_specification[ String::push ](s: &mut String, ch: char)
    ensures
        final(s)@ == old(s)@.push(ch),
;

} // verus!
