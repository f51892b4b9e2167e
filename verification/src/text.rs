//! Character-level helpers on `str` and `String`.

use std::str::Chars;
use vstd::prelude::*;
use vstd::std_specs::iter::IteratorSpec;

verus! {

/// `String::push` appends one character to the end of the string and leaves
/// the characters already there in place.
pub assume_specification[ std::string::String::push ](s: &mut std::string::String, c: char)
    ensures
        final(s)@ == old(s)@.push(c),
;

/// Compares two string slices character by character.
pub fn str_eq(a: &str, b: &str) -> (same: bool)
    ensures
        same == (a@ == b@),
{
    let mut left: Chars = a.chars();
    let mut right: Chars = b.chars();
    loop
        invariant
            (a@ == b@) <==> (left.remaining() == right.remaining()),
            left.decrease() is Some,
        decreases left.decrease()->0,
    {
        let ghost l0 = left.remaining();
        let ghost r0 = right.remaining();
        let x = left.next();
        let y = right.next();
        match (x, y) {
            (None, None) => {
                assert(l0 =~= r0);
                return true;
            },
            (Some(c), Some(d)) => {
                if c != d {
                    return false;
                }
                assert(l0 =~= seq![c] + left.remaining());
                assert(r0 =~= seq![d] + right.remaining());
            },
            _ => {
                return false;
            },
        }
    }
}

} // verus!
