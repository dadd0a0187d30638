//! Small verified helpers on strings: character-wise equality and removal of
//! a single trailing newline, as sysfs attribute files carry one.

use vstd::prelude::*;
use vstd::string::StrSliceExecFns;
use vstd::string::StringExecFns;

verus! {

/// The content of an attribute file with its single trailing newline removed;
/// content without a trailing newline is kept as it is.
pub open spec fn strip_newline(s: Seq<char>) -> Seq<char> {
    if s.len() > 0 && s.last() == '\n' {
        s.drop_last()
    } else {
        s
    }
}

/// Character-wise string equality, decided without any assumption on the
/// encoding of either argument.
pub fn str_eq(a: &str, b: &str) -> (r: bool)
    ensures
        r == (a@ == b@),
{
    let n = a.unicode_len();
    if n != b.unicode_len() {
        return false;
    }
    let mut i: usize = 0;
    while i < n
        invariant
            i <= n,
            n == a@.len(),
            n == b@.len(),
            forall|m: int| 0 <= m < i ==> a@[m] == b@[m],
        decreases n - i,
    {
        if a.get_char(i) != b.get_char(i) {
            return false;
        }
        i += 1;
    }
    proof {
        assert(a@ =~= b@);
    }
    true
}

/// Removes the single trailing newline of an attribute file's content.
pub fn strip_trailing_newline(s: &str) -> (r: String)
    ensures
        r@ == strip_newline(s@),
{
    let n = s.unicode_len();
    if n > 0 && s.get_char(n - 1) == '\n' {
        proof {
            assert(s@.subrange(0, n - 1) =~= s@.drop_last());
        }
        String::from_str(s.substring_char(0, n - 1))
    } else {
        String::from_str(s)
    }
}

} // verus!
