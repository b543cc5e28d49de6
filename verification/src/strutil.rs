//! Contracts for the pieces of `std` string handling that the library uses
//! and that vstd leaves unspecified.

use vstd::prelude::*;

verus! {

/// Relies on `String::push` from std: appends the given character to the
/// end of the string.
pub assume_specification[ String::push ](s: &mut String, c: char)
    ensures
        final(s)@ == old(s)@.push(c),
;

/// The first `n` characters of `s`, or all of it when it is shorter.
pub fn take_chars(s: &str, n: usize) -> (r: String)
    ensures
        r@ == if s@.len() <= n {
            s@
        } else {
            s@.take(n as int)
        },
{
    let len = s.unicode_len();
    if len <= n {
        s.to_owned()
    } else {
        let sub = s.substring_char(0, n);
        proof {
            assert(sub@ =~= s@.take(n as int));
        }
        sub.to_owned()
    }
}

} // verus!
