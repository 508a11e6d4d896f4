//! Numbers as text: decimal, and upper-case hexadecimal.

use vstd::prelude::*;
use vstd::string::StrSliceExecFns;

verus! {

/// `String::push` of the standard library: the character is appended to the
/// string, and nothing else about the string changes.
pub assume_specification[ String::push ](s: &mut String, c: char)
    ensures
        final(s)@ == old(s)@.push(c),
;

/// The character for a digit below sixteen: `0` to `9`, then `A` to `F`.
pub open spec fn spec_digit(d: int) -> char {
    if d < 10 {
        (d + 48) as char
    } else {
        (d + 55) as char
    }
}

/// A natural number in decimal, without leading zeros.
pub open spec fn spec_decimal(n: nat) -> Seq<char>
    decreases n,
{
    if n < 10 {
        seq![spec_digit(n as int)]
    } else {
        spec_decimal(n / 10).push(spec_digit((n % 10) as int))
    }
}

/// A byte as two hexadecimal digits.
pub open spec fn spec_hex_byte(n: u8) -> Seq<char> {
    seq![spec_digit(n as int / 16), spec_digit(n as int % 16)]
}

/// The character for a digit below sixteen.
pub fn digit(d: u8) -> (c: char)
    requires
        d < 16,
    ensures
        c == spec_digit(d as int),
{
    if d < 10 {
        (d + 48) as char
    } else {
        (d + 55) as char
    }
}

/// Append a number in decimal.
pub fn push_decimal(s: &mut String, n: u16)
    ensures
        final(s)@ == old(s)@ + spec_decimal(n as nat),
{
    let ghost start = s@;
    proof {
        reveal_with_fuel(spec_decimal, 5);
    }
    if n >= 10000 {
        s.push(digit((n / 10000) as u8));
    }
    if n >= 1000 {
        s.push(digit((n / 1000 % 10) as u8));
    }
    if n >= 100 {
        s.push(digit((n / 100 % 10) as u8));
    }
    if n >= 10 {
        s.push(digit((n / 10 % 10) as u8));
    }
    s.push(digit((n % 10) as u8));
    assert(s@ =~= start + spec_decimal(n as nat));
}

/// Append a byte as two hexadecimal digits.
pub fn push_hex_byte(s: &mut String, n: u8)
    ensures
        final(s)@ == old(s)@ + spec_hex_byte(n),
{
    let ghost start = s@;
    s.push(digit(n / 16));
    s.push(digit(n % 16));
    assert(s@ =~= start + spec_hex_byte(n));
}

/// `str::to_uppercase` of the standard library gives a string; this names
/// it, as a function of the characters of the string that it is given.
pub uninterp spec fn spec_uppercase(s: Seq<char>) -> Seq<char>;

/// `str::to_uppercase` of the standard library: the upper-case equivalent of
/// a string, as Unicode defines it, in a new string. The contract gives the
/// result its name and claims nothing more.
#[verifier::external_body]
pub(crate) fn to_uppercase(s: &str) -> (r: String)
    ensures
        r@ == spec_uppercase(s@),
{
    s.to_uppercase()
}

/// Whether a character is white space, as Unicode defines it.
pub open spec fn spec_is_space(c: char) -> bool {
    let n = c as u32;
    ||| 0x09 <= n <= 0x0D
    ||| n == 0x20
    ||| n == 0x85
    ||| n == 0xA0
    ||| n == 0x1680
    ||| 0x2000 <= n <= 0x200A
    ||| n == 0x2028
    ||| n == 0x2029
    ||| n == 0x202F
    ||| n == 0x205F
    ||| n == 0x3000
}

/// Whether a character is white space.
pub fn is_space(c: char) -> (r: bool)
    ensures
        r == spec_is_space(c),
{
    let n: u32 = c as u32;
    (0x09 <= n && n <= 0x0D) || n == 0x20 || n == 0x85 || n == 0xA0 || n == 0x1680 || (0x2000 <= n
        && n <= 0x200A) || n == 0x2028 || n == 0x2029 || n == 0x202F || n == 0x205F || n == 0x3000
}

/// The first place from `from` on that holds no white space, or the end.
pub open spec fn spec_skip_spaces(s: Seq<char>, from: int) -> int
    decreases s.len() - from,
{
    if 0 <= from < s.len() && spec_is_space(s[from]) {
        spec_skip_spaces(s, from + 1)
    } else {
        from
    }
}

/// The first place from `from` on that holds white space, or the end.
pub open spec fn spec_skip_word(s: Seq<char>, from: int) -> int
    decreases s.len() - from,
{
    if 0 <= from < s.len() && !spec_is_space(s[from]) {
        spec_skip_word(s, from + 1)
    } else {
        from
    }
}

/// The first word from `from` on, as the places where it starts and ends,
/// if there is one: words are what white space separates.
pub open spec fn spec_word_at(s: Seq<char>, from: int) -> Option<(int, int)> {
    let start = spec_skip_spaces(s, from);
    if start < s.len() {
        Some((start, spec_skip_word(s, start)))
    } else {
        None
    }
}

/// Skipping stays within the string.
pub proof fn lemma_skip_bounds(s: Seq<char>, from: int)
    requires
        0 <= from <= s.len(),
    ensures
        from <= spec_skip_spaces(s, from) <= s.len(),
        from <= spec_skip_word(s, from) <= s.len(),
        from < s.len() && !spec_is_space(s[from]) ==> from < spec_skip_word(s, from),
    decreases s.len() - from,
{
    if from < s.len() {
        lemma_skip_bounds(s, from + 1);
    }
}

/// The first word of a string from `from` on, with the place where it ends.
pub fn word_at(line: &str, from: usize) -> (r: Option<(String, usize)>)
    requires
        from <= line@.len(),
    ensures
        match spec_word_at(line@, from as int) {
            None => r is None,
            Some((start, end)) => r matches Some((word, next)) && word@ == line@.subrange(
                start,
                end,
            ) && next == end && from <= start < end <= line@.len(),
        },
{
    let len = line.unicode_len();
    let mut i: usize = from;
    while i < len && is_space(line.get_char(i))
        invariant
            from <= i <= len,
            len == line@.len(),
            spec_skip_spaces(line@, from as int) == spec_skip_spaces(line@, i as int),
        decreases len - i,
    {
        i += 1;
    }
    if i >= len {
        return None;
    }
    let start = i;
    let mut word = String::new();
    proof {
        lemma_skip_bounds(line@, start as int);
    }
    while i < len && !is_space(line.get_char(i))
        invariant
            start <= i <= len,
            len == line@.len(),
            spec_skip_word(line@, start as int) == spec_skip_word(line@, i as int),
            word@ == line@.subrange(start as int, i as int),
        decreases len - i,
    {
        word.push(line.get_char(i));
        i += 1;
        assert(word@ =~= line@.subrange(start as int, i as int));
    }
    Some((word, i))
}

/// The number that a sequence of decimal digits stands for.
pub open spec fn spec_number(digits: Seq<char>) -> nat
    decreases digits.len(),
{
    if digits.len() == 0 {
        0
    } else {
        (10 * spec_number(digits.drop_last()) + (digits.last() as u32 - 48)) as nat
    }
}

/// Whether every character is one of the digits `0` to `9`.
pub open spec fn spec_all_digits(s: Seq<char>) -> bool {
    forall|i: int| 0 <= i < s.len() ==> 48 <= #[trigger] (s[i] as u32) <= 57
}

/// The number below 65536 that a string is, if it is one: decimal digits,
/// one at least, with or without a plus sign in front.
pub open spec fn spec_parse_u16(s: Seq<char>) -> Option<u16> {
    let digits = if s.len() > 0 && s[0] == '+' {
        s.subrange(1, s.len() as int)
    } else {
        s
    };
    if digits.len() > 0 && spec_all_digits(digits) && spec_number(digits) <= 0xFFFF {
        Some(spec_number(digits) as u16)
    } else {
        None
    }
}

/// More digits never make a number smaller.
pub proof fn lemma_number_grows(digits: Seq<char>, n: int)
    requires
        0 <= n <= digits.len(),
        spec_all_digits(digits),
    ensures
        spec_number(digits.take(n)) <= spec_number(digits),
    decreases digits.len() - n,
{
    if n < digits.len() {
        lemma_number_grows(digits, n + 1);
        assert(digits.take(n + 1).drop_last() =~= digits.take(n));
        assert(digits.take(n + 1).last() == digits[n]);
    } else {
        assert(digits.take(n) =~= digits);
    }
}

/// Read a number below 65536.
pub fn parse_u16(s: &str) -> (r: Option<u16>)
    ensures
        r == spec_parse_u16(s@),
{
    let len = s.unicode_len();
    let first: usize = if len > 0 && s.get_char(0) == '+' { 1 } else { 0 };
    if first >= len {
        return None;
    }
    let ghost digits = if first == 1 { s@.subrange(1, len as int) } else { s@ };
    let mut value: u32 = 0;
    let mut i: usize = first;
    assert(digits.take(0) =~= Seq::<char>::empty());
    while i < len
        invariant
            first <= i <= len,
            first <= 1,
            len == s@.len(),
            first == 1 <==> s@.len() > 0 && s@[0] == '+',
            digits == (if first == 1 { s@.subrange(1, len as int) } else { s@ }),
            digits.len() == len - first,
            spec_all_digits(digits.take(i - first)),
            value == spec_number(digits.take(i - first)),
            value <= 0xFFFF,
        decreases len - i,
    {
        let c = s.get_char(i);
        let n: u32 = c as u32;
        let ghost more = digits.take(i - first + 1);
        proof {
            assert(more.drop_last() =~= digits.take(i - first));
            assert(more.last() == c);
            assert(digits[i - first] == c);
        }
        if n < 48 || n > 57 {
            assert(!spec_all_digits(digits)) by {
                if spec_all_digits(digits) {
                    assert(48 <= digits[i - first] as u32 <= 57);
                }
            }
            return None;
        }
        value = 10 * value + (n - 48);
        proof {
            assert(value == spec_number(more));
            assert forall|j: int| 0 <= j < more.len() implies 48 <= #[trigger] (more[j] as u32)
                <= 57 by {
                if j < more.len() - 1 {
                    assert(more[j] == digits.take(i - first)[j]);
                }
            }
        }
        if value > 0xFFFF {
            proof {
                if spec_all_digits(digits) {
                    lemma_number_grows(digits, i - first + 1);
                }
            }
            return None;
        }
        i += 1;
    }
    proof {
        assert(digits.take(len - first) =~= digits);
    }
    Some(value as u16)
}

/// Whether a text begins with another.
pub fn starts_with(text: &str, head: &str) -> (r: bool)
    ensures
        r == head@.is_prefix_of(text@),
{
    let n = head.unicode_len();
    if n > text.unicode_len() {
        return false;
    }
    let mut i: usize = 0;
    while i < n
        invariant
            i <= n,
            n == head@.len(),
            n <= text@.len(),
            forall|j: int| 0 <= j < i ==> head@[j] == text@[j],
        decreases n - i,
    {
        if head.get_char(i) != text.get_char(i) {
            assert(!(head@ =~= text@.subrange(0, n as int)));
            return false;
        }
        i += 1;
    }
    assert(head@ =~= text@.subrange(0, n as int));
    true
}

} // verus!
