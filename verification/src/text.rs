//! Text primitives shared by the codec and the generator: decimal digits of a
//! colour channel and the grammar of number literals.

use vstd::prelude::*;
use vstd::string::*;

verus! {

/// `c` is one of `0` to `9`.
pub open spec fn is_digit(c: char) -> bool {
    '0' <= c <= '9'
}

/// The character that writes the digit `d`.
pub open spec fn digit_char(d: int) -> char
    recommends
        0 <= d <= 9,
{
    (0x30 + d) as u8 as char
}

/// The decimal digits of a colour channel, without leading zeros.
pub open spec fn decimal(n: u8) -> Seq<char> {
    if n < 10 {
        seq![digit_char(n as int)]
    } else if n < 100 {
        seq![digit_char(n as int / 10), digit_char(n as int % 10)]
    } else {
        seq![digit_char(n as int / 100), digit_char(n as int / 10 % 10), digit_char(n as int % 10)]
    }
}

/// The one-character string that writes the digit `d`.
fn digit_str(d: u8) -> (r: &'static str)
    requires
        d <= 9,
    ensures
        r@ == seq![digit_char(d as int)],
{
    proof {
        reveal_strlit("0");
        reveal_strlit("1");
        reveal_strlit("2");
        reveal_strlit("3");
        reveal_strlit("4");
        reveal_strlit("5");
        reveal_strlit("6");
        reveal_strlit("7");
        reveal_strlit("8");
        reveal_strlit("9");
    }
    let r = match d {
        0 => "0",
        1 => "1",
        2 => "2",
        3 => "3",
        4 => "4",
        5 => "5",
        6 => "6",
        7 => "7",
        8 => "8",
        _ => "9",
    };
    assert(r@ =~= seq![digit_char(d as int)]);
    r
}

/// Writes a colour channel in decimal.
pub fn channel_text(n: u8) -> (r: String)
    ensures
        r@ == decimal(n),
{
    let mut out = String::new();
    if n >= 100 {
        out.append(digit_str(n / 100));
    }
    if n >= 10 {
        out.append(digit_str(n / 10 % 10));
    }
    out.append(digit_str(n % 10));
    assert(out@ =~= decimal(n));
    out
}

/// Reads a colour channel: the inverse of [`channel_text`]. Only the digits
/// that `channel_text` writes are accepted, so `007`, `+7` and `256` are not.
pub fn parse_channel(text: &str) -> (r: Option<u8>)
    ensures
        r matches Some(n) ==> text@ == decimal(n),
        r is None ==> forall|n: u8| text@ != #[trigger] decimal(n),
{
    if !text.is_ascii() {
        assert forall|n: u8| text@ != #[trigger] decimal(n) by {
            if text@ == decimal(n) {
                assert(forall|i: int| 0 <= i < text@.len() ==> is_digit(#[trigger] text@[i]));
            }
        }
        return None;
    }
    let bytes = ascii_bytes(text);
    let len = bytes.len();
    if len == 0 || len > 3 {
        return None;
    }
    let mut value: u16 = 0;
    let mut i: usize = 0;
    while i < len
        invariant
            0 <= i <= len <= 3,
            len == bytes@.len() == text@.len(),
            is_ascii(text),
            forall|k: int| 0 <= k < text@.len() ==> bytes@[k] == #[trigger] text@[k] as u8,
            forall|k: int| 0 <= k < i ==> is_digit(#[trigger] text@[k]),
            i == 0 ==> value == 0,
            i == 1 ==> value == text@[0] as int - 0x30,
            i == 2 ==> value == (text@[0] as int - 0x30) * 10 + (text@[1] as int - 0x30),
            i == 3 ==> value == (text@[0] as int - 0x30) * 100 + (text@[1] as int - 0x30) * 10 + (
            text@[2] as int - 0x30),
        decreases len - i,
    {
        let b = bytes[i];
        if b < 0x30 || b > 0x39 {
            assert(!is_digit(text@[i as int]));
            assert forall|n: u8| text@ != #[trigger] decimal(n) by {
                if text@ == decimal(n) {
                    assert(is_digit(decimal(n)[i as int]));
                }
            }
            return None;
        }
        assert(is_digit(text@[i as int]));
        value = value * 10 + (b - 0x30) as u16;
        i += 1;
    }
    if (len > 1 && bytes[0] == 0x30) || value > 255 {
        assert forall|n: u8| text@ != #[trigger] decimal(n) by {
            if text@ == decimal(n) {
                assert(decimal(n)[0] == text@[0]);
                if len >= 2 {
                    assert(decimal(n)[1] == text@[1]);
                }
                if len >= 3 {
                    assert(decimal(n)[2] == text@[2]);
                }
            }
        }
        return None;
    }
    let n = value as u8;
    assert(text@ =~= decimal(n));
    Some(n)
}

/// Different channels are written differently.
pub proof fn lemma_decimal_injective(a: u8, b: u8)
    requires
        decimal(a) == decimal(b),
    ensures
        a == b,
{
    assert forall|d: int| 0 <= d <= 9 implies #[trigger] digit_char(d) as int == 0x30 + d by {}
    let (x, y) = (a as int, b as int);
    assert(decimal(a).len() == (if x < 10 { 1int } else if x < 100 { 2 } else { 3 }));
    assert(decimal(b).len() == (if y < 10 { 1int } else if y < 100 { 2 } else { 3 }));
    if x < 10 {
        assert(decimal(a)[0] == digit_char(x) && decimal(b)[0] == digit_char(y));
    } else if x < 100 {
        assert(decimal(a)[0] == digit_char(x / 10) && decimal(b)[0] == digit_char(y / 10));
        assert(decimal(a)[1] == digit_char(x % 10) && decimal(b)[1] == digit_char(y % 10));
    } else {
        assert(decimal(a)[0] == digit_char(x / 100) && decimal(b)[0] == digit_char(y / 100));
        assert(decimal(a)[1] == digit_char(x / 10 % 10) && decimal(b)[1] == digit_char(
            y / 10 % 10,
        ));
        assert(decimal(a)[2] == digit_char(x % 10) && decimal(b)[2] == digit_char(y % 10));
    }
}

/// The end of the run of digits that starts at `from`: the index of the first
/// character at or after `from` that is no digit, or the length of `s`.
pub open spec fn digits_end(s: Seq<char>, from: int) -> int
    decreases s.len() - from,
{
    if 0 <= from < s.len() && is_digit(s[from]) {
        digits_end(s, from + 1)
    } else {
        from
    }
}

/// Where the digits of the integer part start: after the sign, if there is one.
pub open spec fn integer_start(s: Seq<char>) -> int {
    if s.len() > 0 && s[0] == '-' {
        1
    } else {
        0
    }
}

/// Where the integer part ends.
pub open spec fn integer_end(s: Seq<char>) -> int {
    digits_end(s, integer_start(s))
}

/// Where the fraction ends: `at` itself if no `.` stands there.
pub open spec fn fraction_end(s: Seq<char>, at: int) -> int {
    if 0 <= at < s.len() && s[at] == '.' {
        digits_end(s, at + 1)
    } else {
        at
    }
}

/// From `at` on, `s` holds nothing, or an exponent: `e`, a sign and digits.
pub open spec fn is_exponent_at(s: Seq<char>, at: int) -> bool {
    at == s.len() || {
        &&& at + 2 < s.len()
        &&& s[at] == 'e'
        &&& (s[at + 1] == '+' || s[at + 1] == '-')
        &&& digits_end(s, at + 2) == s.len()
    }
}

/// `s` is a number literal in the form in which numbers are kept: an optional
/// `-`, an integer part without a needless leading zero, an optional fraction
/// and an optional exponent, which is written with a lower-case `e` and always
/// signed.
pub open spec fn is_number(s: Seq<char>) -> bool {
    let start = integer_start(s);
    let int_end = integer_end(s);
    let frac_end = fraction_end(s, int_end);
    &&& int_end > start
    &&& (s[start] == '0' ==> int_end == start + 1)
    &&& frac_end != int_end + 1
    &&& is_exponent_at(s, frac_end)
}

/// A number literal with a fraction or an exponent.
pub open spec fn is_float_literal(s: Seq<char>) -> bool {
    is_number(s) && integer_end(s) < s.len()
}

/// A number literal that is written as a whole number.
pub open spec fn is_integer_literal(s: Seq<char>) -> bool {
    is_number(s) && integer_end(s) == s.len()
}

pub proof fn lemma_digits_end_bounds(s: Seq<char>, from: int)
    requires
        0 <= from <= s.len(),
    ensures
        from <= digits_end(s, from) <= s.len(),
        forall|k: int| from <= k < digits_end(s, from) ==> is_digit(#[trigger] s[k]),
        digits_end(s, from) < s.len() ==> !is_digit(s[digits_end(s, from)]),
    decreases s.len() - from,
{
    if from < s.len() && is_digit(s[from]) {
        lemma_digits_end_bounds(s, from + 1);
    }
}

/// A run of digits that is followed by something else ends there.
pub proof fn lemma_digits_end_is(s: Seq<char>, from: int, end: int)
    requires
        0 <= from <= end <= s.len(),
        forall|k: int| from <= k < end ==> is_digit(#[trigger] s[k]),
        end < s.len() ==> !is_digit(s[end]),
    ensures
        digits_end(s, from) == end,
    decreases end - from,
{
    if from < end {
        lemma_digits_end_is(s, from + 1, end);
    }
}

/// The bytes of an ASCII string, with the fact that ties them to its characters.
fn ascii_bytes(text: &str) -> (bytes: &[u8])
    requires
        is_ascii(text),
    ensures
        bytes@.len() == text@.len(),
        forall|i: int| 0 <= i < text@.len() ==> bytes@[i] == #[trigger] text@[i] as u8,
        forall|i: int| 0 <= i < text@.len() ==> #[trigger] text@[i] as int == bytes@[i] as int,
{
    proof {
        is_ascii_spec_bytes(text);
    }
    text.as_bytes()
}

/// Skips the digits that start at `from`.
fn skip_digits(text: &str, bytes: &[u8], from: usize) -> (end: usize)
    requires
        from <= bytes@.len() == text@.len(),
        forall|i: int| 0 <= i < text@.len() ==> #[trigger] text@[i] as int == bytes@[i] as int,
    ensures
        end == digits_end(text@, from as int),
        from <= end <= text@.len(),
{
    let mut end = from;
    while end < bytes.len() && 0x30 <= bytes[end] && bytes[end] <= 0x39
        invariant
            from <= end <= bytes@.len() == text@.len(),
            forall|i: int| 0 <= i < text@.len() ==> #[trigger] text@[i] as int == bytes@[i] as int,
            forall|k: int| from <= k < end ==> is_digit(#[trigger] text@[k]),
        decreases bytes@.len() - end,
    {
        assert(is_digit(text@[end as int]));
        end += 1;
    }
    proof {
        if end < bytes@.len() {
            assert(!is_digit(text@[end as int]));
        }
        lemma_digits_end_is(text@, from as int, end as int);
    }
    end
}

/// How a piece of text reads as a number literal.
#[derive(Clone, Copy, Debug, PartialEq, Eq, Structural)]
pub enum NumberForm {
    /// No number literal.
    Invalid,
    /// A whole number.
    Integer,
    /// A number with a fraction or an exponent.
    Float,
}

/// Classifies `text` by the grammar of number literals.
pub fn number_form(text: &str) -> (r: NumberForm)
    ensures
        r == NumberForm::Invalid <==> !is_number(text@),
        r == NumberForm::Integer <==> is_integer_literal(text@),
        r == NumberForm::Float <==> is_float_literal(text@),
{
    if !text.is_ascii() {
        proof {
            if is_number(text@) {
                lemma_number_is_ascii(text@);
            }
        }
        return NumberForm::Invalid;
    }
    let bytes = ascii_bytes(text);
    let len = bytes.len();
    let start: usize = if len > 0 && bytes[0] == 0x2d {
        1
    } else {
        0
    };
    assert(start == integer_start(text@));
    let int_end = skip_digits(text, bytes, start);
    if int_end == start {
        return NumberForm::Invalid;
    }
    if bytes[start] == 0x30 && int_end != start + 1 {
        return NumberForm::Invalid;
    }
    if int_end == len {
        return NumberForm::Integer;
    }
    let frac_end = if bytes[int_end] == 0x2e {
        skip_digits(text, bytes, int_end + 1)
    } else {
        int_end
    };
    assert(frac_end == fraction_end(text@, int_end as int));
    if frac_end == int_end + 1 {
        return NumberForm::Invalid;
    }
    if frac_end == len {
        return NumberForm::Float;
    }
    if len - frac_end < 3 || bytes[frac_end] != 0x65 {
        return NumberForm::Invalid;
    }
    if bytes[frac_end + 1] != 0x2b && bytes[frac_end + 1] != 0x2d {
        return NumberForm::Invalid;
    }
    let exp_end = skip_digits(text, bytes, frac_end + 2);
    if exp_end != len {
        return NumberForm::Invalid;
    }
    NumberForm::Float
}

/// Number literals are made of ASCII characters.
pub proof fn lemma_number_is_ascii(s: Seq<char>)
    requires
        is_number(s),
    ensures
        forall|i: int| 0 <= i < s.len() ==> '\0' <= #[trigger] s[i] <= '\u{7f}',
{
    let start = integer_start(s);
    let int_end = integer_end(s);
    let frac_end = fraction_end(s, int_end);
    lemma_digits_end_bounds(s, start);
    if int_end < s.len() && s[int_end] == '.' {
        lemma_digits_end_bounds(s, int_end + 1);
    }
    if frac_end != s.len() {
        lemma_digits_end_bounds(s, frac_end + 2);
    }
    assert forall|i: int| 0 <= i < s.len() implies '\0' <= #[trigger] s[i] <= '\u{7f}' by {
        if i < start {
        } else if i < int_end {
            assert(is_digit(s[i]));
        } else if i < frac_end {
            if i > int_end {
                assert(is_digit(s[i]));
            }
        } else if i >= frac_end + 2 {
            assert(is_digit(s[i]));
        }
    }
}


/// The digits of `s` keep their end when text is added behind `s`, as long as
/// they end inside `s` or the added text starts with something else.
pub proof fn lemma_digits_end_append(s: Seq<char>, t: Seq<char>, from: int)
    requires
        0 <= from <= s.len(),
        digits_end(s, from) < s.len() || t.len() == 0 || !is_digit(t[0]),
    ensures
        digits_end(s + t, from) == digits_end(s, from),
    decreases s.len() - from,
{
    let st = s + t;
    if from < s.len() {
        assert(st[from] == s[from]);
        if is_digit(s[from]) {
            lemma_digits_end_append(s, t, from + 1);
        }
    } else if t.len() > 0 {
        assert(st[from] == t[0]);
    }
}

/// A whole number followed by `.0` is a number with a fraction.
pub proof fn lemma_integer_with_fraction(s: Seq<char>)
    requires
        is_integer_literal(s),
    ensures
        is_float_literal(s + seq!['.', '0']),
{
    let t = seq!['.', '0'];
    let st = s + t;
    let start = integer_start(s);
    lemma_digits_end_bounds(s, start);
    assert(st[0] == s[0]);
    assert(integer_start(st) == start);
    lemma_digits_end_append(s, t, start);
    let n = s.len() as int;
    assert(integer_end(st) == n);
    assert(st[start] == s[start]);
    assert(st[n] == '.');
    assert(st[n + 1] == '0');
    lemma_digits_end_is(st, n + 1, n + 2);
    assert(fraction_end(st, n) == n + 2);
}

} // verus!
