//! Decimal rendering and substring search over strings.
//!
//! The sysfs PWM controls and the patch-discovery check both work on text:
//! duty cycles and periods are written as decimal strings, and the lighting
//! daemon's device listing is scanned for universe patterns. This module
//! renders unsigned numbers as decimal strings and searches one string inside
//! another, both against exact sequence-level specifications.

use vstd::prelude::*;

verus! {

/// The character for one decimal digit value.
pub open spec fn digit_char(d: nat) -> char {
    if d == 0 {
        '0'
    } else if d == 1 {
        '1'
    } else if d == 2 {
        '2'
    } else if d == 3 {
        '3'
    } else if d == 4 {
        '4'
    } else if d == 5 {
        '5'
    } else if d == 6 {
        '6'
    } else if d == 7 {
        '7'
    } else if d == 8 {
        '8'
    } else {
        '9'
    }
}

/// The decimal rendering of a number, most significant digit first, with no
/// leading zeros (a lone `'0'` for zero).
pub open spec fn spec_decimal(n: nat) -> Seq<char>
    decreases n,
{
    if n < 10 {
        seq![digit_char(n)]
    } else {
        spec_decimal(n / 10) + seq![digit_char(n % 10)]
    }
}

/// The one-character string for a single decimal digit value.
fn digit_str(d: u64) -> (s: &'static str)
    requires
        d < 10,
    ensures
        s@ =~= seq![digit_char(d as nat)],
{
    proof {
        reveal_strlit("0");
        reveal_strlit("1");
        reveal_strlit("2");
        reveal_strlit("3");
        reveal_strlit("4");
        reveal_strlit("5");
        reveal_strlit("6");
        reveal_strlit("7");
        reveal_strlit("8");
        reveal_strlit("9");
    }
    if d == 0 {
        "0"
    } else if d == 1 {
        "1"
    } else if d == 2 {
        "2"
    } else if d == 3 {
        "3"
    } else if d == 4 {
        "4"
    } else if d == 5 {
        "5"
    } else if d == 6 {
        "6"
    } else if d == 7 {
        "7"
    } else if d == 8 {
        "8"
    } else {
        "9"
    }
}

/// Append the decimal rendering of `n` to `out`.
pub fn push_decimal(n: u64, out: &mut String)
    ensures
        final(out)@ == old(out)@ + spec_decimal(n as nat),
    decreases n,
{
    if n >= 10 {
        push_decimal(n / 10, out);
    }
    out.append(digit_str(n % 10));
    proof {
        if n < 10 {
            assert(final(out)@ =~= old(out)@ + spec_decimal(n as nat));
        } else {
            assert(final(out)@ =~= old(out)@ + spec_decimal(n as nat));
        }
    }
}

/// The decimal rendering of `n` as a fresh string.
pub fn decimal_string(n: u64) -> (s: String)
    ensures
        s@ == spec_decimal(n as nat),
{
    let mut s = String::new();
    push_decimal(n, &mut s);
    proof {
        assert(s@ =~= spec_decimal(n as nat));
    }
    s
}

/// Whether `needle` occurs contiguously inside `haystack`.
pub open spec fn contains_seq(haystack: Seq<char>, needle: Seq<char>) -> bool {
    exists|i: int|
        0 <= i && i + needle.len() <= haystack.len() && #[trigger] haystack.subrange(
            i,
            i + needle.len(),
        ) == needle
}

/// Whether `needle` occurs at position `at` of `haystack`.
fn matches_at(haystack: &str, needle: &str, at: usize, haystack_len: usize, needle_len: usize) -> (m:
    bool)
    requires
        haystack_len == haystack@.len(),
        needle_len == needle@.len(),
        at + needle_len <= haystack_len,
    ensures
        m == (haystack@.subrange(at as int, at + needle@.len()) == needle@),
{
    let mut j: usize = 0;
    while j < needle_len
        invariant
            haystack_len == haystack@.len(),
            needle_len == needle@.len(),
            at + needle_len <= haystack_len,
            j <= needle_len,
            forall|k: int| 0 <= k < j ==> haystack@[at + k] == needle@[k],
        decreases needle_len - j,
    {
        if haystack.get_char(at + j) != needle.get_char(j) {
            proof {
                assert(haystack@.subrange(at as int, at + needle@.len())[j as int] != needle@[j as int]);
            }
            return false;
        }
        j += 1;
    }
    proof {
        assert(haystack@.subrange(at as int, at + needle@.len()) =~= needle@);
    }
    true
}

/// Whether `needle` occurs contiguously inside `haystack`.
pub fn str_contains(haystack: &str, needle: &str) -> (found: bool)
    ensures
        found == contains_seq(haystack@, needle@),
{
    let haystack_len = haystack.unicode_len();
    let needle_len = needle.unicode_len();
    if needle_len > haystack_len {
        return false;
    }
    if needle_len == 0 {
        proof {
            assert(haystack@.subrange(0, 0 + needle@.len() as int) =~= needle@);
        }
        return true;
    }
    let mut i: usize = 0;
    while i <= haystack_len - needle_len
        invariant
            haystack_len == haystack@.len(),
            needle_len == needle@.len(),
            1 <= needle_len <= haystack_len,
            i <= haystack_len - needle_len + 1,
            forall|k: int|
                0 <= k < i ==> #[trigger] haystack@.subrange(k, k + needle@.len()) != needle@,
        decreases haystack_len - needle_len + 1 - i,
    {
        if matches_at(haystack, needle, i, haystack_len, needle_len) {
            return true;
        }
        i += 1;
    }
    false
}

/// The ASCII whitespace a sysfs value may be padded with.
pub open spec fn is_ascii_space(c: char) -> bool {
    c == ' ' || c == '\n' || c == '\t' || c == '\r'
}

/// `s` with leading and trailing ASCII whitespace removed.
pub open spec fn spec_trim(s: Seq<char>) -> Seq<char>
    decreases s.len(),
{
    if s.len() > 0 && is_ascii_space(s[0]) {
        spec_trim(s.drop_first())
    } else if s.len() > 0 && is_ascii_space(s.last()) {
        spec_trim(s.drop_last())
    } else {
        s
    }
}

/// Whether `c` is a decimal digit.
pub open spec fn is_digit(c: char) -> bool {
    48 <= c as u32 <= 57
}

/// The value of a decimal digit; 0 for any other character.
pub open spec fn digit_value(c: char) -> nat {
    if is_digit(c) {
        (c as u32 - 48) as nat
    } else {
        0
    }
}

/// Whether every character of `s` is a decimal digit.
pub open spec fn all_digits(s: Seq<char>) -> bool {
    forall|k: int| 0 <= k < s.len() ==> is_digit(#[trigger] s[k])
}

/// The number denoted by a sequence of decimal digits, most significant
/// first.
pub open spec fn digits_value(s: Seq<char>) -> nat
    decreases s.len(),
{
    if s.len() == 0 {
        0
    } else {
        digits_value(s.drop_last()) * 10 + digit_value(s.last())
    }
}

/// A digit string denotes at least as much as any of its prefixes.
proof fn lemma_digits_value_prefix(s: Seq<char>, k: int)
    requires
        0 <= k <= s.len(),
    ensures
        digits_value(s.subrange(0, k)) <= digits_value(s),
    decreases s.len() - k,
{
    if k == s.len() {
        assert(s.subrange(0, k) =~= s);
    } else {
        lemma_digits_value_prefix(s, k + 1);
        assert(s.subrange(0, k + 1).drop_last() =~= s.subrange(0, k));
    }
}

/// What `parse_trimmed_u8` accepts: the text, once trimmed, is a non-empty
/// run of decimal digits whose value fits in a byte.
pub open spec fn spec_parse_u8(s: Seq<char>) -> Option<u8> {
    let t = spec_trim(s);
    if t.len() > 0 && all_digits(t) && digits_value(t) <= 255 {
        Some(digits_value(t) as u8)
    } else {
        None
    }
}

/// Whether `c` is ASCII whitespace.
fn is_space_char(c: char) -> (space: bool)
    ensures
        space == is_ascii_space(c),
{
    c == ' ' || c == '\n' || c == '\t' || c == '\r'
}

/// Parse a decimal byte value out of `s`, ignoring leading and trailing
/// ASCII whitespace; `None` if the trimmed text is empty, holds a non-digit,
/// or denotes more than 255.
pub fn parse_trimmed_u8(s: &str) -> (parsed: Option<u8>)
    ensures
        parsed == spec_parse_u8(s@),
{
    let len = s.unicode_len();
    proof {
        assert(s@.subrange(0, len as int) =~= s@);
    }
    let mut start: usize = 0;
    while start < len && is_space_char(s.get_char(start))
        invariant
            len == s@.len(),
            start <= len,
            spec_trim(s@) == spec_trim(s@.subrange(start as int, len as int)),
        decreases len - start,
    {
        proof {
            assert(s@.subrange(start as int, len as int).drop_first() =~= s@.subrange(
                start as int + 1,
                len as int,
            ));
        }
        start += 1;
    }
    let mut end: usize = len;
    while end > start && is_space_char(s.get_char(end - 1))
        invariant
            len == s@.len(),
            start <= end <= len,
            start < len ==> !is_ascii_space(s@[start as int]),
            spec_trim(s@) == spec_trim(s@.subrange(start as int, end as int)),
        decreases end,
    {
        proof {
            assert(s@.subrange(start as int, end as int).drop_last() =~= s@.subrange(
                start as int,
                end as int - 1,
            ));
        }
        end -= 1;
    }
    let ghost t = s@.subrange(start as int, end as int);
    proof {
        assert(spec_trim(s@) == t);
    }
    if start == end {
        proof {
            assert(t.len() == 0);
        }
        return None;
    }
    let mut value: u32 = 0;
    let mut idx: usize = start;
    while idx < end
        invariant
            len == s@.len(),
            start <= idx <= end <= len,
            t == s@.subrange(start as int, end as int),
            spec_trim(s@) == t,
            start < end,
            forall|k: int| 0 <= k < idx - start ==> is_digit(#[trigger] t[k]),
            value == digits_value(t.subrange(0, idx - start)),
            value <= 255,
        decreases end - idx,
    {
        let c = s.get_char(idx);
        let code = c as u32;
        proof {
            assert(t[idx - start] == s@[idx as int]);
        }
        if code < 48 || code > 57 {
            proof {
                assert(!is_digit(t[idx - start]));
            }
            return None;
        }
        value = value * 10 + (code - 48);
        proof {
            assert(t.subrange(0, idx - start + 1).drop_last() =~= t.subrange(0, idx - start));
            assert(t.subrange(0, idx - start + 1).last() == t[idx - start]);
        }
        if value > 255 {
            proof {
                lemma_digits_value_prefix(t, idx - start + 1);
            }
            return None;
        }
        idx += 1;
    }
    proof {
        assert(t.subrange(0, end - start) =~= t);
    }
    Some(value as u8)
}

} // verus!
