//! Small reference and string helpers.

use vstd::prelude::*;
use vstd::string::StrSliceExecFns;

verus! {

/// Hand the borrowed reference straight back.
pub fn return_same_ref<'a>(r: &'a i32) -> (res: &'a i32)
    ensures
        res == r,
{
    r
}

/// The longest prefix of `s` holding no space: the word before the first
/// space when there is one, all of `s` otherwise.
pub fn first_word(s: &str) -> (r: &str)
    ensures
        r@.len() <= s@.len(),
        r@ == s@.subrange(0, r@.len() as int),
        forall|j: int| 0 <= j < r@.len() ==> s@[j] != ' ',
        r@.len() < s@.len() ==> s@[r@.len() as int] == ' ',
{
    let n = s.unicode_len();
    let mut i: usize = 0;
    while i < n
        invariant
            n == s@.len(),
            i <= n,
            forall|j: int| 0 <= j < i ==> s@[j] != ' ',
        decreases n - i,
    {
        if s.get_char(i) == ' ' {
            return s.substring_char(0, i);
        }
        i += 1;
    }
    proof {
        assert(s@.subrange(0, n as int) =~= s@);
    }
    s
}

} // verus!
