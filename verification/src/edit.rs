//! In-place text editing of one item: inserting and removing single
//! characters at a character offset. Offsets count characters, not bytes,
//! so any position within the text is a valid edit point.

use vstd::prelude::*;
use vstd::string::StrSliceExecFns;
use vstd::string::StringExecFns;

verus! {

/// Relies on `String::push`, which appends the given character to the end
/// of the string.
pub assume_specification[ String::push ](s: &mut String, ch: char)
    ensures
        final(s)@ == old(s)@.push(ch),
;

/// The text with `c` inserted at character offset `i`.
pub fn insert_char(s: &str, i: usize, c: char) -> (r: String)
    requires
        (i as int) <= s@.len(),
    ensures
        r@ == s@.insert(i as int, c),
{
    let len = s.unicode_len();
    let before = s.substring_char(0, i);
    let after = s.substring_char(i, len);
    let mut r = before.to_owned();
    r.push(c);
    let r = r.concat(after);
    proof {
        assert(r@ =~= s@.insert(i as int, c));
    }
    r
}

/// The text with the character at offset `i` removed.
pub fn remove_char(s: &str, i: usize) -> (r: String)
    requires
        (i as int) < s@.len(),
    ensures
        r@ == s@.remove(i as int),
{
    let len = s.unicode_len();
    let before = s.substring_char(0, i);
    let after = s.substring_char(i + 1, len);
    let r = before.to_owned().concat(after);
    proof {
        assert(r@ =~= s@.remove(i as int));
    }
    r
}

} // verus!
