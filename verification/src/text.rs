//! Decimal parsing of a guess: trim surrounding whitespace, accept an
//! optional leading plus sign, and read the remaining characters as a
//! base-10 unsigned integer.

use vstd::prelude::*;
use vstd::string::StrSliceExecFns;

verus! {

/// Whether `c` carries the Unicode `White_Space` property, the set of
/// characters that trimming removes from either end of a line.
pub open spec fn is_unicode_whitespace(c: char) -> bool {
    let u = c as u32;
    (0x09 <= u && u <= 0x0D) || u == 0x20 || u == 0x85 || u == 0xA0 || u == 0x1680 || (0x2000
        <= u && u <= 0x200A) || u == 0x2028 || u == 0x2029 || u == 0x202F || u == 0x205F || u
        == 0x3000
}

/// Decide [`is_unicode_whitespace`] on one character.
pub fn is_whitespace_char(c: char) -> (b: bool)
    ensures
        b == is_unicode_whitespace(c),
{
    let u = c as u32;
    (0x09 <= u && u <= 0x0D) || u == 0x20 || u == 0x85 || u == 0xA0 || u == 0x1680 || (0x2000
        <= u && u <= 0x200A) || u == 0x2028 || u == 0x2029 || u == 0x202F || u == 0x205F || u
        == 0x3000
}

/// Whether `c` is one of the decimal digits `'0'..='9'`.
pub open spec fn is_decimal_digit(c: char) -> bool {
    0x30 <= (c as u32) && (c as u32) <= 0x39
}

/// The numeric value of the digit `c`.
pub open spec fn digit_value(c: char) -> nat {
    (((c as u32) - 0x30) as nat)
}

/// Whether every character of `s` is a decimal digit.
pub open spec fn all_decimal_digits(s: Seq<char>) -> bool {
    forall|i: int| 0 <= i < s.len() ==> is_decimal_digit(s[i])
}

/// The value of `s` read as a base-10 numeral, most significant digit
/// first.
pub open spec fn decimal_value(s: Seq<char>) -> nat
    decreases s.len(),
{
    if s.len() == 0 {
        0
    } else {
        decimal_value(s.drop_last()) * 10 + digit_value(s.last())
    }
}

/// `s` with its leading whitespace removed.
pub open spec fn trim_front(s: Seq<char>) -> Seq<char>
    decreases s.len(),
{
    if s.len() > 0 && is_unicode_whitespace(s[0]) {
        trim_front(s.drop_first())
    } else {
        s
    }
}

/// `s` with its trailing whitespace removed.
pub open spec fn trim_back(s: Seq<char>) -> Seq<char>
    decreases s.len(),
{
    if s.len() > 0 && is_unicode_whitespace(s.last()) {
        trim_back(s.drop_last())
    } else {
        s
    }
}

/// `s` with whitespace removed from both ends.
pub open spec fn trimmed(s: Seq<char>) -> Seq<char> {
    trim_back(trim_front(s))
}

/// `s` with one leading `'+'` removed, if it starts with one.
pub open spec fn without_plus_sign(s: Seq<char>) -> Seq<char> {
    if s.len() > 0 && s[0] == '+' {
        s.drop_first()
    } else {
        s
    }
}

/// What parsing `line` as an unsigned 32-bit decimal yields: after
/// trimming and an optional `'+'`, there must be at least one character,
/// all characters must be digits, and the value must fit in a `u32`;
/// otherwise the line is rejected.
pub open spec fn spec_parse_u32(line: Seq<char>) -> Option<u32> {
    let digits = without_plus_sign(trimmed(line));
    if digits.len() > 0 && all_decimal_digits(digits) && decimal_value(digits) <= u32::MAX {
        Some(decimal_value(digits) as u32)
    } else {
        None
    }
}

/// If the first `k` characters of `s` are whitespace and the next one,
/// if any, is not, then trimming the front of `s` drops exactly those
/// `k` characters.
proof fn lemma_trim_front_at(s: Seq<char>, k: int)
    requires
        0 <= k <= s.len(),
        forall|i: int| 0 <= i < k ==> is_unicode_whitespace(s[i]),
        k < s.len() ==> !is_unicode_whitespace(s[k]),
    ensures
        trim_front(s) == s.subrange(k, s.len() as int),
    decreases k,
{
    if k == 0 {
        assert(s.subrange(0, s.len() as int) =~= s);
    } else {
        let t = s.drop_first();
        assert(forall|i: int| 0 <= i < k - 1 ==> is_unicode_whitespace(t[i]));
        lemma_trim_front_at(t, k - 1);
        assert(t.subrange(k - 1, t.len() as int) =~= s.subrange(k, s.len() as int));
    }
}

/// If the characters of `s` from position `k` on are whitespace and the
/// one before, if any, is not, then trimming the back of `s` keeps
/// exactly the first `k` characters.
proof fn lemma_trim_back_at(s: Seq<char>, k: int)
    requires
        0 <= k <= s.len(),
        forall|i: int| k <= i < s.len() ==> is_unicode_whitespace(s[i]),
        k > 0 ==> !is_unicode_whitespace(s[k - 1]),
    ensures
        trim_back(s) == s.subrange(0, k),
    decreases s.len(),
{
    if k == s.len() {
        assert(s.subrange(0, k) =~= s);
    } else {
        let t = s.drop_last();
        lemma_trim_back_at(t, k);
        assert(t.subrange(0, k) =~= s.subrange(0, k));
    }
}

/// Extending a numeral on the right never decreases its value.
proof fn lemma_decimal_value_extend(s: Seq<char>, a: int, m: int, b: int)
    requires
        0 <= a <= m <= b <= s.len(),
    ensures
        decimal_value(s.subrange(a, b)) >= decimal_value(s.subrange(a, m)),
    decreases b - m,
{
    if m < b {
        lemma_decimal_value_extend(s, a, m + 1, b);
        let p = s.subrange(a, m + 1);
        assert(p.drop_last() =~= s.subrange(a, m));
        assert(decimal_value(p) == decimal_value(s.subrange(a, m)) * 10 + digit_value(s[m]));
    }
}

/// Parse `line` as a `u32` the way the guessing loop reads a guess:
/// whitespace is trimmed from both ends, one leading `'+'` is allowed,
/// and the remaining digits are read in base 10. Returns `None` exactly
/// when the trimmed line is empty, holds a character other than a digit,
/// or names a value above `u32::MAX`.
pub fn parse_u32(line: &str) -> (r: Option<u32>)
    ensures
        r == spec_parse_u32(line@),
{
    let n: usize = line.unicode_len();
    let mut lo: usize = 0;
    while lo < n && is_whitespace_char(line.get_char(lo))
        invariant
            n == line@.len(),
            0 <= lo <= n,
            forall|i: int| 0 <= i < lo ==> is_unicode_whitespace(line@[i]),
        decreases n - lo,
    {
        lo = lo + 1;
    }
    let mut hi: usize = n;
    while hi > lo && is_whitespace_char(line.get_char(hi - 1))
        invariant
            n == line@.len(),
            0 <= lo <= hi <= n,
            forall|i: int| hi <= i < n ==> is_unicode_whitespace(line@[i]),
        decreases hi,
    {
        hi = hi - 1;
    }
    proof {
        lemma_trim_front_at(line@, lo as int);
        lemma_trim_back_at(line@.subrange(lo as int, n as int), hi - lo);
        assert(line@.subrange(lo as int, n as int).subrange(0, hi - lo) =~= line@.subrange(
            lo as int,
            hi as int,
        ));
        assert(trimmed(line@) == line@.subrange(lo as int, hi as int));
    }
    let start: usize = if lo < hi && line.get_char(lo) == '+' {
        lo + 1
    } else {
        lo
    };
    let ghost digits = without_plus_sign(trimmed(line@));
    proof {
        if lo < hi && line@[lo as int] == '+' {
            assert(line@.subrange(lo as int, hi as int).drop_first() =~= line@.subrange(
                start as int,
                hi as int,
            ));
        }
        assert(digits =~= line@.subrange(start as int, hi as int));
    }
    if start == hi {
        return None;
    }
    let mut acc: u64 = 0;
    let mut i: usize = start;
    while i < hi
        invariant
            n == line@.len(),
            start <= i <= hi <= n,
            digits == without_plus_sign(trimmed(line@)),
            digits =~= line@.subrange(start as int, hi as int),
            forall|j: int| start <= j < i ==> is_decimal_digit(line@[j]),
            acc == decimal_value(line@.subrange(start as int, i as int)),
            acc <= u32::MAX,
        decreases hi - i,
    {
        let c = line.get_char(i);
        let u: u32 = c as u32;
        if u < 0x30 || u > 0x39 {
            proof {
                assert(digits[i - start] == line@[i as int]);
                assert(!all_decimal_digits(digits));
            }
            return None;
        }
        let dv: u64 = (u - 0x30) as u64;
        proof {
            let p = line@.subrange(start as int, i + 1);
            assert(p.drop_last() =~= line@.subrange(start as int, i as int));
            assert(decimal_value(p) == acc * 10 + digit_value(line@[i as int]));
        }
        acc = acc * 10 + dv;
        if acc > u32::MAX as u64 {
            proof {
                lemma_decimal_value_extend(line@, start as int, i + 1, hi as int);
                assert(decimal_value(digits) > u32::MAX);
            }
            return None;
        }
        i = i + 1;
    }
    proof {
        assert(line@.subrange(start as int, i as int) =~= digits);
        assert(all_decimal_digits(digits));
    }
    Some(acc as u32)
}

} // verus!
