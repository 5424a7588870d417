//! The string-slice exercises: the length of the first word of a
//! string, and the first word itself as a slice.

use vstd::prelude::*;
use vstd::slice::slice_index_get;
use vstd::string::StrSliceExecFns;
use vstd::utf8::encode_utf8;

verus! {

/// How many bytes come before the first space byte of `s`: the byte
/// length of the first word, or of the whole string when it holds no
/// space.
pub fn first_word(s: &String) -> (r: usize)
    ensures
        r <= encode_utf8(s@).len(),
        forall|i: int| 0 <= i < r ==> encode_utf8(s@)[i] != 32u8,
        r < encode_utf8(s@).len() ==> encode_utf8(s@)[r as int] == 32u8,
{
    let bytes: &[u8] = s.as_str().as_bytes();
    let n: usize = bytes.len();
    let mut i: usize = 0;
    while i < n
        invariant
            bytes@ == encode_utf8(s@),
            n == bytes@.len(),
            0 <= i <= n,
            forall|j: int| 0 <= j < i ==> bytes@[j] != 32u8,
        decreases n - i,
    {
        let item: u8 = *slice_index_get(bytes, i);
        if item == 32 {
            return i;
        }
        i = i + 1;
    }
    s.as_str().len()
}

/// The first word of `s`: everything before its first space character,
/// or all of `s` when it holds no space.
pub fn the_cooler_first_word(s: &str) -> (r: &str)
    ensures
        r@.len() <= s@.len(),
        r@ == s@.subrange(0, r@.len() as int),
        forall|i: int| 0 <= i < r@.len() ==> s@[i] != ' ',
        r@.len() < s@.len() ==> s@[r@.len() as int] == ' ',
{
    let n: usize = s.unicode_len();
    let mut i: usize = 0;
    while i < n
        invariant
            n == s@.len(),
            0 <= i <= n,
            forall|j: int| 0 <= j < i ==> s@[j] != ' ',
        decreases n - i,
    {
        let c: char = s.get_char(i);
        if c == ' ' {
            return s.substring_char(0, i);
        }
        i = i + 1;
    }
    proof {
        assert(s@.subrange(0, s@.len() as int) =~= s@);
    }
    s
}

} // verus!
