//! Text helpers: decimal rendering, truncation, trimming, searching and
//! parsing, each stated over the character sequence of its strings.

use vstd::prelude::*;

verus! {

/// Appends one character to a string (std `String::push`).
///
/// Trusted: the contract claims that the new contents are the old contents
/// followed by `c`, as std documents.
#[verifier::external_body]
pub(crate) fn push_char(s: &mut String, c: char)
    ensures
        final(s)@ == old(s)@.push(c),
{
    s.push(c);
}

/// The character of a decimal digit.
pub open spec fn digit_char(d: nat) -> char {
    ((48 + d) as u32) as char
}

/// The shortest decimal representation of `n`.
pub open spec fn decimal(n: nat) -> Seq<char>
    decreases n,
{
    if n < 10 {
        seq![digit_char(n)]
    } else {
        decimal(n / 10).push(digit_char(n % 10))
    }
}

/// `n` in decimal, padded with a leading zero to at least two digits.
pub open spec fn two_digits(n: nat) -> Seq<char> {
    if n < 10 {
        seq!['0'] + decimal(n)
    } else {
        decimal(n)
    }
}

fn digit(d: u64) -> (c: char)
    requires
        d < 10,
    ensures
        c == digit_char(d as nat),
{
    let b: u8 = 48u8 + (d as u8);
    b as char
}

/// Appends the decimal representation of `n`.
pub fn push_decimal(s: &mut String, n: u64)
    ensures
        final(s)@ == old(s)@ + decimal(n as nat),
    decreases n,
{
    if n >= 10 {
        push_decimal(s, n / 10);
    }
    let c = digit(n % 10);
    push_char(s, c);
    proof {
        if n >= 10 {
            assert(old(s)@ + decimal(n as nat) =~= old(s)@ + decimal((n / 10) as nat) + seq![c]);
        } else {
            assert(old(s)@ + decimal(n as nat) =~= old(s)@.push(c));
        }
    }
}

/// The decimal representation of `n`.
pub fn decimal_string(n: u64) -> (r: String)
    ensures
        r@ == decimal(n as nat),
{
    let mut s = String::new();
    push_decimal(&mut s, n);
    assert(s@ =~= decimal(n as nat));
    s
}

/// Appends `n` in decimal, zero-padded to at least two digits (`{:02}`).
pub fn push_two_digits(s: &mut String, n: u64)
    ensures
        final(s)@ == old(s)@ + two_digits(n as nat),
{
    if n < 10 {
        push_char(s, '0');
    }
    push_decimal(s, n);
    proof {
        if n < 10 {
            assert(old(s)@ + two_digits(n as nat) =~= old(s)@.push('0') + decimal(n as nat));
        }
    }
}

/// The `MM:SS` rendering of a number of seconds.
pub open spec fn duration_text(total_secs: nat) -> Seq<char> {
    two_digits(total_secs / 60) + seq![':'] + two_digits(total_secs % 60)
}

/// Formats a duration given in whole seconds as `MM:SS` (minutes are not
/// capped at 59 hours-wise; they simply grow past two digits).
pub fn format_duration(total_secs: u64) -> (r: String)
    ensures
        r@ == duration_text(total_secs as nat),
{
    let mut s = String::new();
    push_two_digits(&mut s, total_secs / 60);
    push_char(&mut s, ':');
    push_two_digits(&mut s, total_secs % 60);
    assert(s@ =~= duration_text(total_secs as nat));
    s
}

/// The display form of `s` within `max_chars` characters.
pub open spec fn truncated(s: Seq<char>, max_chars: nat) -> Seq<char> {
    if s.len() <= max_chars {
        s
    } else if max_chars <= 3 {
        s.take(max_chars as int)
    } else {
        s.take(max_chars - 3) + seq!['.', '.', '.']
    }
}

/// Truncates `s` to at most `max_chars` characters. A string that fits is
/// returned whole; otherwise the first `max_chars - 3` characters are kept
/// and followed by `...`, or, when `max_chars <= 3`, only the first
/// `max_chars` characters are kept.
pub fn truncate_for_display(s: &str, max_chars: usize) -> (r: String)
    ensures
        r@ == truncated(s@, max_chars as nat),
{
    let count = s.unicode_len();
    if count <= max_chars {
        String::from_str(s)
    } else if max_chars <= 3 {
        String::from_str(s.substring_char(0, max_chars))
    } else {
        let mut t = String::from_str(s.substring_char(0, max_chars - 3));
        push_char(&mut t, '.');
        push_char(&mut t, '.');
        push_char(&mut t, '.');
        assert(t@ =~= truncated(s@, max_chars as nat));
        t
    }
}

/// Whether two string slices hold the same characters.
pub fn str_equal(a: &str, b: &str) -> (r: bool)
    ensures
        r == (a@ == b@),
{
    let x = String::from_str(a);
    let y = String::from_str(b);
    x == y
}

} // verus!

verus! {

/// Whether `needle` occurs in `hay` starting at position `i`.
pub open spec fn occurs_at(hay: Seq<char>, needle: Seq<char>, i: int) -> bool {
    0 <= i && i + needle.len() <= hay.len() && hay.subrange(i, i + needle.len()) == needle
}

/// Whether `needle` occurs somewhere in `hay`.
pub open spec fn contains_seq(hay: Seq<char>, needle: Seq<char>) -> bool {
    exists|i: int| occurs_at(hay, needle, i)
}

/// Whether `needle` occurs as a contiguous part of `hay` (std
/// `str::contains` with a string pattern).
pub fn str_contains(hay: &str, needle: &str) -> (r: bool)
    ensures
        r == contains_seq(hay@, needle@),
{
    let h = hay.unicode_len();
    let n = needle.unicode_len();
    if n > h {
        proof {
            assert forall|i: int| !occurs_at(hay@, needle@, i) by {}
        }
        return false;
    }
    let last = h - n;
    let mut i: usize = 0;
    loop
        invariant
            h == hay@.len(),
            n == needle@.len(),
            n <= h,
            last == h - n,
            i <= last,
            forall|j: int| 0 <= j < i ==> !occurs_at(hay@, needle@, j),
        decreases last - i,
    {
        let part = hay.substring_char(i, i + n);
        if str_equal(part, needle) {
            assert(occurs_at(hay@, needle@, i as int));
            return true;
        }
        if i == last {
            proof {
                assert forall|j: int| !occurs_at(hay@, needle@, j) by {
                    if 0 <= j && j <= i {
                    }
                }
            }
            return false;
        }
        i = i + 1;
    }
}

/// `s` without its trailing run of `c`.
pub open spec fn strip_trailing(s: Seq<char>, c: char) -> Seq<char>
    decreases s.len(),
{
    if s.len() > 0 && s.last() == c {
        strip_trailing(s.drop_last(), c)
    } else {
        s
    }
}

/// Stripping leaves a prefix of the text that does not end in `c`, and
/// stripping again changes nothing.
pub proof fn lemma_strip_trailing_facts(s: Seq<char>, c: char)
    ensures
        strip_trailing(s, c).len() <= s.len(),
        s.take(strip_trailing(s, c).len() as int) == strip_trailing(s, c),
        strip_trailing(s, c).len() > 0 ==> strip_trailing(s, c).last() != c,
        strip_trailing(strip_trailing(s, c), c) == strip_trailing(s, c),
    decreases s.len(),
{
    if s.len() > 0 && s.last() == c {
        lemma_strip_trailing_facts(s.drop_last(), c);
        let r = strip_trailing(s.drop_last(), c);
        assert(s.take(r.len() as int) =~= s.drop_last().take(r.len() as int));
    } else {
        assert(s.take(s.len() as int) =~= s);
    }
}

/// Removes every trailing `c` (std `str::trim_end_matches` with a char).
pub fn strip_trailing_char(s: &str, c: char) -> (r: String)
    ensures
        r@ == strip_trailing(s@, c),
{
    let mut end = s.unicode_len();
    assert(s@.take(end as int) =~= s@);
    while end > 0 && s.get_char(end - 1) == c
        invariant
            end <= s@.len(),
            strip_trailing(s@.take(end as int), c) == strip_trailing(s@, c),
        decreases end,
    {
        assert(s@.take(end as int).drop_last() =~= s@.take(end - 1));
        end = end - 1;
    }
    proof {
        if end == s@.len() {
            assert(s@.take(end as int) =~= s@);
        }
    }
    String::from_str(s.substring_char(0, end))
}

} // verus!

verus! {

/// Unicode `White_Space` (std `char::is_whitespace`).
pub open spec fn is_space(c: char) -> bool {
    ||| ('\u{9}' <= c && c <= '\u{d}')
    ||| c == ' '
    ||| c == '\u{85}'
    ||| c == '\u{a0}'
    ||| c == '\u{1680}'
    ||| ('\u{2000}' <= c && c <= '\u{200a}')
    ||| c == '\u{2028}'
    ||| c == '\u{2029}'
    ||| c == '\u{202f}'
    ||| c == '\u{205f}'
    ||| c == '\u{3000}'
}

fn char_is_space(c: char) -> (r: bool)
    ensures
        r == is_space(c),
{
    ('\u{9}' <= c && c <= '\u{d}') || c == ' ' || c == '\u{85}' || c == '\u{a0}' || c == '\u{1680}' || (
    '\u{2000}' <= c && c <= '\u{200a}') || c == '\u{2028}' || c == '\u{2029}' || c == '\u{202f}' || c
        == '\u{205f}' || c == '\u{3000}'
}

/// The number of leading white-space characters of `s`.
pub open spec fn leading_spaces(s: Seq<char>) -> nat
    decreases s.len(),
{
    if s.len() > 0 && is_space(s[0]) {
        1 + leading_spaces(s.drop_first())
    } else {
        0
    }
}

/// The number of trailing white-space characters of `s`.
pub open spec fn trailing_spaces(s: Seq<char>) -> nat
    decreases s.len(),
{
    if s.len() > 0 && is_space(s.last()) {
        1 + trailing_spaces(s.drop_last())
    } else {
        0
    }
}

/// `s` without leading and trailing white space (std `str::trim`).
pub open spec fn trimmed(s: Seq<char>) -> Seq<char> {
    let front = s.skip(leading_spaces(s) as int);
    front.take(front.len() - trailing_spaces(front))
}

proof fn lemma_leading_spaces(s: Seq<char>, i: int)
    requires
        0 <= i <= s.len(),
        forall|j: int| 0 <= j < i ==> is_space(#[trigger] s[j]),
    ensures
        leading_spaces(s) == i + leading_spaces(s.skip(i)),
    decreases i,
{
    if i > 0 {
        assert(is_space(s[0]));
        let t = s.drop_first();
        assert forall|j: int| 0 <= j < i - 1 implies is_space(#[trigger] t[j]) by {
            assert(t[j] == s[j + 1]);
        }
        lemma_leading_spaces(t, i - 1);
        assert(t.skip(i - 1) =~= s.skip(i));
    } else {
        assert(s.skip(0) =~= s);
    }
}

proof fn lemma_trailing_spaces(s: Seq<char>, e: int)
    requires
        0 <= e <= s.len(),
        forall|j: int| e <= j < s.len() ==> is_space(#[trigger] s[j]),
    ensures
        trailing_spaces(s) == (s.len() - e) + trailing_spaces(s.take(e)),
    decreases s.len() - e,
{
    if e < s.len() {
        assert(is_space(s.last()));
        let t = s.drop_last();
        assert forall|j: int| e <= j < t.len() implies is_space(#[trigger] t[j]) by {
            assert(t[j] == s[j]);
        }
        lemma_trailing_spaces(t, e);
        assert(t.take(e) =~= s.take(e));
    } else {
        assert(s.take(e) =~= s);
    }
}

/// Removes leading and trailing white space.
pub fn trim_text(s: &str) -> (r: String)
    ensures
        r@ == trimmed(s@),
{
    let n = s.unicode_len();
    let mut start: usize = 0;
    while start < n && char_is_space(s.get_char(start))
        invariant
            n == s@.len(),
            start <= n,
            forall|j: int| 0 <= j < start ==> is_space(#[trigger] s@[j]),
        decreases n - start,
    {
        start = start + 1;
    }
    proof {
        lemma_leading_spaces(s@, start as int);
        assert(leading_spaces(s@.skip(start as int)) == 0);
    }
    let front = s.substring_char(start, n);
    assert(front@ =~= s@.skip(start as int));
    let m = n - start;
    let mut end: usize = m;
    while end > 0 && char_is_space(front.get_char(end - 1))
        invariant
            m == front@.len(),
            end <= m,
            forall|j: int| end <= j < m ==> is_space(#[trigger] front@[j]),
        decreases end,
    {
        end = end - 1;
    }
    proof {
        lemma_trailing_spaces(front@, end as int);
        if end > 0 {
            assert(front@.take(end as int).last() == front@[end - 1]);
        }
        assert(trailing_spaces(front@.take(end as int)) == 0);
    }
    String::from_str(front.substring_char(0, end))
}

/// A decimal digit character.
pub open spec fn is_digit(c: char) -> bool {
    '0' <= c && c <= '9'
}

/// The value of a string of decimal digits.
pub open spec fn digits_value(s: Seq<char>) -> nat
    decreases s.len(),
{
    if s.len() == 0 {
        0
    } else {
        digits_value(s.drop_last()) * 10 + ((s.last() as int - 48) as nat)
    }
}

/// The value of an unsigned decimal integer up to `max` (std `from_str`
/// for unsigned types): an optional `+`, then one or more ASCII digits,
/// whose value does not exceed `max`.
pub open spec fn parse_unsigned(s: Seq<char>, max: nat) -> Option<nat> {
    let d = unsigned_digits(s);
    if d.len() > 0 && all_digits(d) && digits_value(d) <= max {
        Some(digits_value(d))
    } else {
        None
    }
}

/// The text of an unsigned number after its optional `+` sign.
pub open spec fn unsigned_digits(s: Seq<char>) -> Seq<char> {
    if s.len() > 0 && s[0] == '+' {
        s.drop_first()
    } else {
        s
    }
}

/// Every character is a decimal digit.
pub open spec fn all_digits(d: Seq<char>) -> bool {
    forall|i: int| 0 <= i < d.len() ==> is_digit(#[trigger] d[i])
}

/// Parses an unsigned decimal integer no larger than `max`.
pub fn parse_unsigned_text(s: &str, max: u64) -> (r: Option<u64>)
    ensures
        match parse_unsigned(s@, max as nat) {
            Some(v) => r == Some(v as u64),
            None => r is None,
        },
{
    let n = s.unicode_len();
    let start: usize = if n > 0 && s.get_char(0) == '+' {
        1
    } else {
        0
    };
    let d = s.substring_char(start, n);
    proof {
        if start == 1 {
            assert(d@ =~= s@.drop_first());
        } else {
            assert(d@ =~= s@);
        }
    }
    let len = n - start;
    if len == 0 {
        return None;
    }
    let mut value: u64 = 0;
    let mut over = false;
    let mut i: usize = 0;
    while i < len
        invariant
            len == d@.len(),
            d@ == unsigned_digits(s@),
            i <= len,
            forall|j: int| 0 <= j < i ==> is_digit(#[trigger] d@[j]),
            over ==> digits_value(d@.take(i as int)) > max,
            !over ==> value == digits_value(d@.take(i as int)) && value <= max,
        decreases len - i,
    {
        let c = d.get_char(i);
        if !('0' <= c && c <= '9') {
            assert(!is_digit(d@[i as int]));
            assert(!all_digits(d@));
            return None;
        }
        let digit: u64 = (c as u32 - 48) as u64;
        assert(d@.take(i + 1).drop_last() =~= d@.take(i as int));
        assert(d@.take(i + 1).last() == c);
        if !over {
            let next: u128 = (value as u128) * 10 + digit as u128;
            if next > max as u128 {
                over = true;
            } else {
                value = next as u64;
            }
        }
        i = i + 1;
    }
    assert(d@.take(len as int) =~= d@);
    if over {
        None
    } else {
        Some(value)
    }
}

} // verus!
