//! Text building blocks shared by the rest of the library.
use vstd::prelude::*;

verus! {

/// The sixty-five code points of Unicode's `Cc` category.
pub open spec fn control_character(c: char) -> bool {
    c <= '\u{1f}' || '\u{7f}' <= c <= '\u{9f}'
}

/// Tells whether `c` is a control character.
pub fn is_control(c: char) -> (result: bool)
    ensures
        result == control_character(c),
{
    c <= '\u{1f}' || ('\u{7f}' <= c && c <= '\u{9f}')
}

/// The code points with Unicode's `White_Space` property.
pub open spec fn white_space(c: char) -> bool {
    ||| '\u{9}' <= c <= '\u{d}'
    ||| c == ' '
    ||| c == '\u{85}'
    ||| c == '\u{a0}'
    ||| c == '\u{1680}'
    ||| '\u{2000}' <= c <= '\u{200a}'
    ||| c == '\u{2028}'
    ||| c == '\u{2029}'
    ||| c == '\u{202f}'
    ||| c == '\u{205f}'
    ||| c == '\u{3000}'
}

/// Tells whether `c` is white space.
pub fn is_white_space(c: char) -> (result: bool)
    ensures
        result == white_space(c),
{
    ('\u{9}' <= c && c <= '\u{d}') || c == ' ' || c == '\u{85}' || c == '\u{a0}' || c == '\u{1680}'
        || ('\u{2000}' <= c && c <= '\u{200a}') || c == '\u{2028}' || c == '\u{2029}' || c
        == '\u{202f}' || c == '\u{205f}' || c == '\u{3000}'
}

/// `String::push` adds one character at the end and changes nothing before it.
pub assume_specification[ String::push ](s: &mut String, ch: char)
    ensures
        final(s)@ == old(s)@.push(ch),
;

/// The decimal digit for a value below ten.
pub open spec fn digit(d: nat) -> char {
    (48 + d) as char
}

/// A number in decimal, without sign or leading zeros.
pub open spec fn decimal(n: nat) -> Seq<char>
    decreases n,
{
    if n < 10 {
        seq![digit(n)]
    } else {
        decimal(n / 10).push(digit(n % 10))
    }
}

fn digit_character(d: u128) -> (c: char)
    requires
        d < 10,
    ensures
        c == digit(d as nat),
{
    match d {
        0 => '0',
        1 => '1',
        2 => '2',
        3 => '3',
        4 => '4',
        5 => '5',
        6 => '6',
        7 => '7',
        8 => '8',
        _ => '9',
    }
}

/// Appends `n` in decimal.
pub fn push_decimal(out: &mut String, n: u128)
    ensures
        final(out)@ == old(out)@ + decimal(n as nat),
    decreases n,
{
    if n < 10 {
        out.push(digit_character(n));
        assert(out@ =~= old(out)@ + decimal(n as nat));
    } else {
        push_decimal(out, n / 10);
        out.push(digit_character(n % 10));
        assert(out@ =~= old(out)@ + decimal(n as nat));
    }
}

/// The lower-case hexadecimal digit for a value below sixteen.
pub open spec fn hex_digit(d: nat) -> char {
    if d < 10 {
        (48 + d) as char
    } else {
        (87 + d) as char
    }
}

/// A control character as visible text: its code point in four hexadecimal
/// digits, between `\u{` and `}`.
pub open spec fn escaped(c: char) -> Seq<char> {
    let n = c as nat;
    seq![
        '\\',
        'u',
        '{',
        hex_digit(n / 4096 % 16),
        hex_digit(n / 256 % 16),
        hex_digit(n / 16 % 16),
        hex_digit(n % 16),
        '}',
    ]
}

fn hex_character(d: u32) -> (c: char)
    requires
        d < 16,
    ensures
        c == hex_digit(d as nat),
{
    match d {
        0 => '0',
        1 => '1',
        2 => '2',
        3 => '3',
        4 => '4',
        5 => '5',
        6 => '6',
        7 => '7',
        8 => '8',
        9 => '9',
        10 => 'a',
        11 => 'b',
        12 => 'c',
        13 => 'd',
        14 => 'e',
        _ => 'f',
    }
}

/// Appends a control character as visible text.
pub fn push_escaped(out: &mut String, c: char)
    requires
        control_character(c),
    ensures
        final(out)@ == old(out)@ + escaped(c),
{
    let n: u32 = c as u32;
    out.push('\\');
    out.push('u');
    out.push('{');
    out.push(hex_character(n / 4096 % 16));
    out.push(hex_character(n / 256 % 16));
    out.push(hex_character(n / 16 % 16));
    out.push(hex_character(n % 16));
    out.push('}');
    assert(out@ =~= old(out)@ + escaped(c));
}

/// Every character of `s` is a decimal digit.
pub open spec fn all_digits(s: Seq<char>) -> bool {
    forall|i: int| 0 <= i < s.len() ==> '0' <= #[trigger] s[i] <= '9'
}

/// The number that a sequence of decimal digits stands for.
pub open spec fn digits_value(s: Seq<char>) -> nat
    decreases s.len(),
{
    if s.len() == 0 {
        0
    } else {
        digits_value(s.drop_last()) * 10 + (s.last() as nat - 48) as nat
    }
}

/// A number's decimal text reads back as the number.
pub proof fn decimal_reads_back(n: nat)
    ensures
        decimal(n).len() > 0,
        all_digits(decimal(n)),
        digits_value(decimal(n)) == n,
    decreases n,
{
    if n < 10 {
        assert(decimal(n).drop_last() =~= Seq::<char>::empty());
        assert(digits_value(Seq::<char>::empty()) == 0);
    } else {
        decimal_reads_back(n / 10);
        assert(decimal(n).drop_last() =~= decimal(n / 10));
    }
}

/// The digits of a number as it may be written: after a plus sign, if there is
/// one.
pub open spec fn number_digits(s: Seq<char>) -> Seq<char> {
    if s.len() > 0 && s[0] == '+' {
        s.skip(1)
    } else {
        s
    }
}

/// The number that `s` stands for: decimal digits and nothing else, not more
/// than `max`.
pub open spec fn parsed_number(s: Seq<char>, max: nat) -> Option<nat> {
    let digits = number_digits(s);
    if digits.len() > 0 && all_digits(digits) && digits_value(digits) <= max {
        Some(digits_value(digits))
    } else {
        None
    }
}

proof fn prefix_value_grows(s: Seq<char>, n: int)
    requires
        0 <= n <= s.len(),
        all_digits(s),
    ensures
        digits_value(s.take(n)) <= digits_value(s),
    decreases s.len() - n,
{
    if n < s.len() {
        prefix_value_grows(s, n + 1);
        assert(s.take(n + 1).drop_last() =~= s.take(n));
        assert(s.take(n + 1).last() == s[n]);
    } else {
        assert(s.take(n) =~= s);
    }
}

/// Reads an unsigned number the way std's `parse` does.
pub fn parse_number(s: &str, max: u64) -> (number: Option<u64>)
    ensures
        match number {
            Some(number) => parsed_number(s@, max as nat) == Some(number as nat),
            None => parsed_number(s@, max as nat) is None,
        },
{
    let length: usize = s.unicode_len();
    let start: usize = if length > 0 && s.get_char(0) == '+' {
        1
    } else {
        0
    };
    let ghost digits = number_digits(s@);
    let mut value: u64 = 0;
    let mut i: usize = start;
    assert(digits.take(0) =~= Seq::empty());
    while i < length
        invariant
            start <= i <= length == s@.len(),
            start <= 1,
            digits == s@.skip(start as int),
            digits == number_digits(s@),
            all_digits(digits.take(i - start)),
            value == digits_value(digits.take(i - start)),
            value <= max,
        decreases length - i,
    {
        let c = s.get_char(i);
        proof {
            assert(digits.take(i - start + 1).drop_last() =~= digits.take(i - start));
            assert(digits[i - start] == c);
        }
        if !('0' <= c && c <= '9') {
            assert(!all_digits(digits));
            return None;
        }
        let next: u128 = value as u128 * 10 + (c as u32 - 48) as u128;
        proof {
            assert(next == digits_value(digits.take(i - start + 1)));
            assert forall|k: int| 0 <= k < i - start + 1 implies '0' <= #[trigger] digits.take(
                i - start + 1,
            )[k] <= '9' by {
                if k < i - start {
                    assert(digits.take(i - start)[k] == digits.take(i - start + 1)[k]);
                }
            }
        }
        if next > max as u128 {
            proof {
                if all_digits(digits) {
                    prefix_value_grows(digits, i - start + 1);
                }
            }
            return None;
        }
        value = next as u64;
        i = i + 1;
    }
    assert(digits.take(length - start) =~= digits);
    if length == start {
        None
    } else {
        Some(value)
    }
}

/// `part` stands somewhere in `s`.
pub open spec fn holds_text(s: Seq<char>, part: Seq<char>) -> bool {
    exists|i: int|
        0 <= i <= s.len() - part.len() && #[trigger] s.subrange(i, i + part.len()) == part
}

/// The text of an optional string.
pub open spec fn optional_text(value: Option<String>) -> Option<Seq<char>> {
    match value {
        Some(text) => Some(text@),
        None => None,
    }
}

/// Tells whether two texts hold the same characters.
pub fn same_text(a: &str, b: &str) -> (result: bool)
    ensures
        result == (a@ == b@),
{
    a.to_owned() == b.to_owned()
}

/// `a` comes before `b` in the order of their characters.
pub open spec fn precedes_text(a: Seq<char>, b: Seq<char>) -> bool
    decreases a.len(),
{
    if b.len() == 0 {
        false
    } else if a.len() == 0 {
        true
    } else if a[0] == b[0] {
        precedes_text(a.skip(1), b.skip(1))
    } else {
        a[0] < b[0]
    }
}

pub proof fn precedes_text_irreflexive(a: Seq<char>)
    ensures
        !precedes_text(a, a),
    decreases a.len(),
{
    if a.len() > 0 {
        precedes_text_irreflexive(a.skip(1));
    }
}

pub proof fn precedes_text_transitive(a: Seq<char>, b: Seq<char>, c: Seq<char>)
    requires
        precedes_text(a, b),
        precedes_text(b, c),
    ensures
        precedes_text(a, c),
    decreases a.len(),
{
    if a.len() > 0 && a[0] == b[0] && b[0] == c[0] {
        precedes_text_transitive(a.skip(1), b.skip(1), c.skip(1));
    }
}

pub proof fn precedes_text_total(a: Seq<char>, b: Seq<char>)
    ensures
        precedes_text(a, b) || precedes_text(b, a) || a == b,
    decreases a.len(),
{
    if a.len() > 0 && b.len() > 0 && a[0] == b[0] {
        precedes_text_total(a.skip(1), b.skip(1));
        if a.skip(1) == b.skip(1) {
            assert(a =~= seq![a[0]] + a.skip(1));
            assert(b =~= seq![b[0]] + b.skip(1));
        }
    } else {
        assert(a.len() == 0 && b.len() == 0 ==> a =~= b);
    }
}

/// Tells whether `a` comes before `b` in the order of their characters, which
/// is also the order of their UTF-8 bytes.
pub fn text_before(a: &str, b: &str) -> (result: bool)
    ensures
        result == precedes_text(a@, b@),
{
    let a_length: usize = a.unicode_len();
    let b_length: usize = b.unicode_len();
    let mut i: usize = 0;
    assert(a@.skip(0) =~= a@);
    assert(b@.skip(0) =~= b@);
    while i < a_length && i < b_length
        invariant
            i <= a_length == a@.len(),
            i <= b_length == b@.len(),
            precedes_text(a@, b@) == precedes_text(a@.skip(i as int), b@.skip(i as int)),
        decreases a_length - i,
    {
        let left = a.get_char(i);
        let right = b.get_char(i);
        proof {
            assert(a@.skip(i as int).skip(1) =~= a@.skip(i + 1));
            assert(b@.skip(i as int).skip(1) =~= b@.skip(i + 1));
        }
        if left != right {
            return left < right;
        }
        i = i + 1;
    }
    i < b_length
}

/// No two numbers are written alike.
pub proof fn numbers_are_written_apart(a: nat, b: nat)
    requires
        decimal(a) == decimal(b),
    ensures
        a == b,
{
    decimal_reads_back(a);
    decimal_reads_back(b);
}

/// A number that fits is read as it is written, with or without a plus sign; one
/// beyond the limit is not read.
pub proof fn written_numbers_are_read(n: nat, max: nat)
    ensures
        n <= max ==> parsed_number(decimal(n), max) == Some(n),
        n <= max ==> parsed_number(seq!['+'] + decimal(n), max) == Some(n),
        n > max ==> parsed_number(decimal(n), max) is None,
        parsed_number(Seq::empty(), max) is None,
{
    decimal_reads_back(n);
    assert('0' <= decimal(n)[0] <= '9');
    assert((seq!['+'] + decimal(n)).skip(1) =~= decimal(n));
    assert((seq!['+'] + decimal(n))[0] == '+');
}

/// No two control characters are shown alike.
pub proof fn controls_are_shown_apart(a: char, b: char)
    requires
        (a as u32) < 65536,
        (b as u32) < 65536,
        escaped(a) == escaped(b),
    ensures
        a == b,
{
    let m = a as nat;
    let n = b as nat;
    assert(escaped(a)[3] == escaped(b)[3]);
    assert(escaped(a)[4] == escaped(b)[4]);
    assert(escaped(a)[5] == escaped(b)[5]);
    assert(escaped(a)[6] == escaped(b)[6]);
    hex_digits_differ(m / 4096 % 16, n / 4096 % 16);
    hex_digits_differ(m / 256 % 16, n / 256 % 16);
    hex_digits_differ(m / 16 % 16, n / 16 % 16);
    hex_digits_differ(m % 16, n % 16);
}

proof fn hex_digits_differ(a: nat, b: nat)
    requires
        a < 16,
        b < 16,
        hex_digit(a) == hex_digit(b),
    ensures
        a == b,
{
}

} // verus!
