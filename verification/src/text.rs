//! Plain-text building blocks of the action tokens: decimal numbers,
//! fixed-width digit groups and fields separated by one character.
//!
//! Everything here works on ASCII text. The specifications speak of
//! `Seq<char>`, the view of `str` and `String`.

use vstd::prelude::*;
use vstd::string::*;

verus! {

/// The character of the decimal digit `d`.
pub open spec fn digit_char(d: int) -> char {
    (48 + d) as char
}

/// Whether `c` is one of `'0'..='9'`.
pub open spec fn is_digit(c: char) -> bool {
    48 <= c as int <= 57
}

/// The number that the digit `c` stands for.
pub open spec fn digit_value(c: char) -> int {
    c as int - 48
}

/// Whether every character of `s` is a decimal digit.
pub open spec fn all_digits(s: Seq<char>) -> bool {
    forall|i: int| 0 <= i < s.len() ==> is_digit(#[trigger] s[i])
}

/// The number written by the digits `s`, most significant first.
pub open spec fn digits_value(s: Seq<char>) -> nat
    decreases s.len(),
{
    if s.len() == 0 {
        0
    } else {
        (digits_value(s.drop_last()) * 10 + digit_value(s.last())) as nat
    }
}

/// The shortest decimal notation of `n`: no sign, no leading zero.
pub open spec fn decimal(n: nat) -> Seq<char>
    decreases n,
{
    if n < 10 {
        seq![digit_char(n as int)]
    } else {
        decimal(n / 10).push(digit_char((n % 10) as int))
    }
}

/// Whether `s` is the shortest decimal notation of some number.
pub open spec fn is_decimal(s: Seq<char>) -> bool {
    &&& s.len() >= 1
    &&& all_digits(s)
    &&& (s.len() == 1 || s[0] != '0')
}

/// Decimal notation of an integer: a minus sign before negative numbers.
pub open spec fn signed_decimal(n: int) -> Seq<char> {
    if n < 0 {
        seq!['-'] + decimal((-n) as nat)
    } else {
        decimal(n as nat)
    }
}

/// Whether `s` is the notation that `signed_decimal` gives some integer.
pub open spec fn is_signed_decimal(s: Seq<char>) -> bool {
    if s.len() >= 1 && s[0] == '-' {
        is_decimal(s.skip(1)) && digits_value(s.skip(1)) > 0
    } else {
        is_decimal(s)
    }
}

/// The integer that a signed decimal notation stands for.
pub open spec fn signed_value(s: Seq<char>) -> int {
    if s.len() >= 1 && s[0] == '-' {
        -(digits_value(s.skip(1)) as int)
    } else {
        digits_value(s) as int
    }
}

/// `n` written with exactly `width` digits, padded with zeros on the left.
/// Digits of `n` beyond `width` are dropped.
pub open spec fn fixed_digits(n: nat, width: nat) -> Seq<char>
    decreases width,
{
    if width == 0 {
        Seq::empty()
    } else {
        fixed_digits(n / 10, (width - 1) as nat).push(digit_char((n % 10) as int))
    }
}

/// Ten to the power `e`.
pub open spec fn pow10(e: nat) -> nat
    decreases e,
{
    if e == 0 {
        1
    } else {
        10 * pow10((e - 1) as nat)
    }
}

/// A digit character is a digit and stands for its number.
pub proof fn lemma_digit_char(d: int)
    requires
        0 <= d < 10,
    ensures
        is_digit(digit_char(d)),
        digit_value(digit_char(d)) == d,
        digit_char(d) != '-',
        digit_char(d) != ':',
        (digit_char(d) == '0') == (d == 0),
{
}

/// The value of a prefix of a digit string never exceeds the value of the whole.
pub proof fn lemma_digits_value_prefix(s: Seq<char>, k: int)
    requires
        all_digits(s),
        0 <= k <= s.len(),
    ensures
        digits_value(s.take(k)) <= digits_value(s),
    decreases s.len() - k,
{
    if k == s.len() {
        assert(s.take(k) =~= s);
    } else {
        lemma_digits_value_prefix(s, k + 1);
        let t = s.take(k + 1);
        assert(t.drop_last() =~= s.take(k));
        assert(is_digit(s[k]));
        assert(t.last() == s[k]);
    }
}

/// A digit string that does not begin with zero is worth at least one.
pub proof fn lemma_leading_digit(s: Seq<char>)
    requires
        all_digits(s),
        s.len() >= 1,
        s[0] != '0',
    ensures
        digits_value(s) >= 1,
{
    lemma_digits_value_prefix(s, 1);
    let t = s.take(1);
    assert(t.drop_last() =~= Seq::<char>::empty());
    assert(digits_value(t.drop_last()) == 0);
    assert(t.last() == s[0]);
    assert(is_digit(s[0]));
}

/// `decimal(n)` is a decimal notation, and its value is `n`.
pub proof fn lemma_decimal_value(n: nat)
    ensures
        is_decimal(decimal(n)),
        digits_value(decimal(n)) == n,
        n == 0 <==> decimal(n) == seq!['0'],
    decreases n,
{
    if n < 10 {
        lemma_digit_char(n as int);
        let s = decimal(n);
        assert(s.drop_last() =~= Seq::<char>::empty());
        assert(digits_value(s.drop_last()) == 0);
        assert(s.len() == 1);
        assert(s[0] == digit_char(n as int));
        if n == 0 {
            assert(s =~= seq!['0']);
        } else {
            assert(s[0] != '0');
        }
    } else {
        lemma_decimal_value(n / 10);
        lemma_digit_char((n % 10) as int);
        let t = decimal(n / 10);
        let s = decimal(n);
        assert(s.drop_last() =~= t);
        assert(s.len() >= 2);
        assert(s[0] == t[0]);
        assert(t != seq!['0']);
        if t.len() == 1 {
            assert(t =~= seq![t[0]]);
        }
        assert forall|i: int| 0 <= i < s.len() implies is_digit(#[trigger] s[i]) by {
            if i < t.len() {
                assert(s[i] == t[i]);
            }
        }
    }
}

/// Every decimal notation is the `decimal` of its value.
pub proof fn lemma_decimal_of_value(s: Seq<char>)
    requires
        is_decimal(s),
    ensures
        decimal(digits_value(s)) == s,
    decreases s.len(),
{
    let c = s.last();
    let t = s.drop_last();
    assert(is_digit(s[s.len() - 1]));
    if s.len() == 1 {
        assert(t =~= Seq::<char>::empty());
        assert(digits_value(t) == 0);
        assert(decimal(digits_value(s)) =~= s);
    } else {
        assert(all_digits(t)) by {
            assert forall|i: int| 0 <= i < t.len() implies is_digit(#[trigger] t[i]) by {
                assert(t[i] == s[i]);
            }
        }
        assert(t[0] == s[0]);
        lemma_leading_digit(t);
        lemma_decimal_of_value(t);
        let n = digits_value(s);
        assert(n == digits_value(t) * 10 + digit_value(c));
        assert(n / 10 == digits_value(t));
        assert(n % 10 == digit_value(c));
        assert(digit_char(digit_value(c)) == c);
        assert(decimal(n) =~= s);
    }
}

/// `signed_decimal(n)` is a signed decimal notation, and its value is `n`.
pub proof fn lemma_signed_decimal_value(n: int)
    ensures
        is_signed_decimal(signed_decimal(n)),
        signed_value(signed_decimal(n)) == n,
{
    if n < 0 {
        let m = (-n) as nat;
        lemma_decimal_value(m);
        let s = signed_decimal(n);
        assert(s.skip(1) =~= decimal(m));
        assert(s[0] == '-');
    } else {
        lemma_decimal_value(n as nat);
        let s = decimal(n as nat);
        assert(is_digit(s[0]));
    }
}

/// Every signed decimal notation is the `signed_decimal` of its value.
pub proof fn lemma_signed_decimal_of_value(s: Seq<char>)
    requires
        is_signed_decimal(s),
    ensures
        signed_decimal(signed_value(s)) == s,
{
    if s.len() >= 1 && s[0] == '-' {
        lemma_decimal_of_value(s.skip(1));
        assert(seq!['-'] + s.skip(1) =~= s);
    } else {
        lemma_decimal_of_value(s);
    }
}

/// `fixed_digits(n, width)` has `width` digits; where `n` fits in them, their value is `n`.
pub proof fn lemma_fixed_digits(n: nat, width: nat)
    ensures
        fixed_digits(n, width).len() == width,
        all_digits(fixed_digits(n, width)),
        n < pow10(width) ==> digits_value(fixed_digits(n, width)) == n,
    decreases width,
{
    if width > 0 {
        lemma_fixed_digits(n / 10, (width - 1) as nat);
        lemma_digit_char((n % 10) as int);
        let t = fixed_digits(n / 10, (width - 1) as nat);
        let s = fixed_digits(n, width);
        assert(s.drop_last() =~= t);
        assert forall|i: int| 0 <= i < s.len() implies is_digit(#[trigger] s[i]) by {
            if i < t.len() {
                assert(s[i] == t[i]);
            }
        }
    }
}

/// A string of `width` digits is the `fixed_digits` of its value, which is below `pow10(width)`.
pub proof fn lemma_fixed_digits_of_value(s: Seq<char>)
    requires
        all_digits(s),
    ensures
        digits_value(s) < pow10(s.len()),
        fixed_digits(digits_value(s), s.len()) == s,
    decreases s.len(),
{
    if s.len() > 0 {
        let t = s.drop_last();
        let c = s.last();
        assert(is_digit(s[s.len() - 1]));
        assert(all_digits(t)) by {
            assert forall|i: int| 0 <= i < t.len() implies is_digit(#[trigger] t[i]) by {
                assert(t[i] == s[i]);
            }
        }
        lemma_fixed_digits_of_value(t);
        let n = digits_value(s);
        assert(n / 10 == digits_value(t));
        assert(n % 10 == digit_value(c));
        assert(digit_char(digit_value(c)) == c);
        assert(fixed_digits(n, s.len()) =~= s);
    } else {
        assert(fixed_digits(0, 0) =~= s);
    }
}

/// The text of one decimal digit.
pub fn digit_text(d: u8) -> (text: &'static str)
    requires
        d < 10,
    ensures
        text@ == seq![digit_char(d as int)],
{
    proof {
        reveal_strlit("0");
        reveal_strlit("1");
        reveal_strlit("2");
        reveal_strlit("3");
        reveal_strlit("4");
        reveal_strlit("5");
        reveal_strlit("6");
        reveal_strlit("7");
        reveal_strlit("8");
        reveal_strlit("9");
    }
    let text = match d {
        0 => "0",
        1 => "1",
        2 => "2",
        3 => "3",
        4 => "4",
        5 => "5",
        6 => "6",
        7 => "7",
        8 => "8",
        _ => "9",
    };
    assert(text@ =~= seq![digit_char(d as int)]);
    text
}

/// Writes `n` in decimal notation.
pub fn render_decimal(n: u64) -> (text: String)
    ensures
        text@ == decimal(n as nat),
    decreases n,
{
    if n < 10 {
        String::from_str(digit_text(n as u8))
    } else {
        let mut text = render_decimal(n / 10);
        text.append(digit_text((n % 10) as u8));
        assert(text@ =~= decimal(n as nat));
        text
    }
}

/// Writes `n` in signed decimal notation.
pub fn render_signed(n: i64) -> (text: String)
    ensures
        text@ == signed_decimal(n as int),
{
    if n < 0 {
        let magnitude: u64 = if n == i64::MIN {
            9223372036854775808u64
        } else {
            (-n) as u64
        };
        let digits = render_decimal(magnitude);
        let mut text = String::from_str("-");
        text.append(digits.as_str());
        proof {
            reveal_strlit("-");
            assert(text@ =~= signed_decimal(n as int));
        }
        text
    } else {
        render_decimal(n as u64)
    }
}

/// Writes `n` with exactly `width` digits.
pub fn render_fixed(n: u32, width: u8) -> (text: String)
    ensures
        text@ == fixed_digits(n as nat, width as nat),
    decreases width,
{
    if width == 0 {
        let text = String::new();
        assert(text@ =~= fixed_digits(n as nat, 0));
        text
    } else {
        let mut text = render_fixed(n / 10, width - 1);
        text.append(digit_text((n % 10) as u8));
        assert(text@ =~= fixed_digits(n as nat, width as nat));
        text
    }
}

/// Whether two ASCII texts hold the same characters.
pub fn same_text(a: &str, b: &str) -> (same: bool)
    requires
        is_ascii(a),
        is_ascii(b),
    ensures
        same == (a@ == b@),
{
    broadcast use is_ascii_spec_bytes;

    let n = a.unicode_len();
    if b.unicode_len() != n {
        return false;
    }
    let mut i: usize = 0;
    while i < n
        invariant
            is_ascii(a),
            is_ascii(b),
            n == a@.len(),
            n == b@.len(),
            i <= n,
            forall|k: int| 0 <= k < i ==> a@[k] == b@[k],
        decreases n - i,
    {
        if a.get_ascii(i) != b.get_ascii(i) {
            assert(a@[i as int] != b@[i as int]);
            return false;
        }
        assert(a@[i as int] == b@[i as int]);
        i += 1;
    }
    assert(a@ =~= b@);
    true
}

/// Reads a string of decimal digits of any length, leading zeros included.
/// `None` where a character is no digit or the value exceeds `max`.
pub fn parse_digits(text: &str, max: u64) -> (value: Option<u64>)
    requires
        is_ascii(text),
    ensures
        value == if all_digits(text@) && digits_value(text@) <= max {
            Some(digits_value(text@) as u64)
        } else {
            None
        },
{
    broadcast use is_ascii_spec_bytes;

    let n = text.unicode_len();
    let mut total: u64 = 0;
    let mut i: usize = 0;
    while i < n
        invariant
            is_ascii(text),
            n == text@.len(),
            i <= n,
            all_digits(text@.take(i as int)),
            total == digits_value(text@.take(i as int)),
            total <= max,
        decreases n - i,
    {
        let b = text.get_ascii(i);
        let ghost next = text@.take(i + 1);
        proof {
            assert(next.drop_last() =~= text@.take(i as int));
            assert(next.last() == text@[i as int]);
        }
        if b < 48 || b > 57 {
            assert(!is_digit(text@[i as int]));
            return None;
        }
        let d: u64 = (b - 48) as u64;
        assert(d == digit_value(text@[i as int]));
        assert(all_digits(next)) by {
            assert forall|k: int| 0 <= k < next.len() implies is_digit(#[trigger] next[k]) by {
                if k < i {
                    assert(next[k] == text@.take(i as int)[k]);
                }
            }
        }
        if d > max || total > (max - d) / 10 {
            proof {
                assert(digits_value(next) == total * 10 + d);
                assert(digits_value(next) > max);
                if all_digits(text@) {
                    lemma_digits_value_prefix(text@, i + 1);
                }
            }
            return None;
        }
        total = total * 10 + d;
        i += 1;
    }
    assert(text@.take(n as int) =~= text@);
    Some(total)
}

/// Reads the shortest decimal notation of a number up to `max`.
pub fn parse_decimal(text: &str, max: u64) -> (value: Option<u64>)
    requires
        is_ascii(text),
    ensures
        value == if is_decimal(text@) && digits_value(text@) <= max {
            Some(digits_value(text@) as u64)
        } else {
            None
        },
{
    broadcast use is_ascii_spec_bytes;

    let n = text.unicode_len();
    if n == 0 {
        return None;
    }
    if n > 1 && text.get_ascii(0) == 48 {
        assert(text@[0] == '0');
        return None;
    }
    parse_digits(text, max)
}

/// Reads a signed decimal notation of a number from `-floor` to `max`.
pub fn parse_signed(text: &str, floor: u64, max: u64) -> (value: Option<i64>)
    requires
        is_ascii(text),
        floor <= 9223372036854775808,
        max <= 9223372036854775807,
    ensures
        value == if is_signed_decimal(text@) && -(floor as int) <= signed_value(text@) <= max {
            Some(signed_value(text@) as i64)
        } else {
            None
        },
{
    broadcast use is_ascii_spec_bytes;

    let n = text.unicode_len();
    if n >= 1 && text.get_ascii(0) == 45 {
        assert(text@[0] == '-');
        let rest = text.substring_ascii(1, n);
        assert(rest@ =~= text@.skip(1));
        match parse_decimal(rest, floor) {
            Some(magnitude) => {
                if magnitude == 0 {
                    None
                } else if magnitude == 9223372036854775808 {
                    Some(i64::MIN)
                } else {
                    Some(-(magnitude as i64))
                }
            },
            None => None,
        }
    } else {
        if n >= 1 {
            assert(text@[0] != '-');
        }
        match parse_decimal(text, max) {
            Some(value) => Some(value as i64),
            None => None,
        }
    }
}

/// Reads exactly `width` decimal digits.
pub fn parse_fixed(text: &str, width: usize) -> (value: Option<u32>)
    requires
        is_ascii(text),
        width <= 9,
    ensures
        value == if text@.len() == width && all_digits(text@) {
            Some(digits_value(text@) as u32)
        } else {
            None
        },
{
    if text.unicode_len() != width {
        return None;
    }
    proof {
        if all_digits(text@) {
            lemma_fixed_digits_of_value(text@);
            lemma_pow10_small(text@.len());
        }
    }
    match parse_digits(text, 999999999) {
        Some(value) => Some(value as u32),
        None => None,
    }
}

/// Up to nine digits stay below one thousand million.
pub proof fn lemma_pow10_small(e: nat)
    requires
        e <= 9,
    ensures
        pow10(e) <= 1000000000,
{
    reveal_with_fuel(pow10, 10);
}

/// A number below ten to the power `digits` is written with at most `digits` digits.
pub proof fn lemma_decimal_length(n: nat, digits: nat)
    requires
        digits >= 1,
        n < pow10(digits),
    ensures
        1 <= decimal(n).len() <= digits,
    decreases digits,
{
    if n >= 10 {
        if digits == 1 {
            assert(pow10(1) == 10) by {
                reveal_with_fuel(pow10, 2);
            }
        } else {
            lemma_decimal_length(n / 10, (digits - 1) as nat);
        }
    }
}

/// Numbers of 32 bits take at most eleven characters, numbers of 64 bits at most twenty.
pub proof fn lemma_signed_decimal_length(n: int)
    requires
        -9223372036854775808 <= n <= 9223372036854775807,
    ensures
        1 <= signed_decimal(n).len() <= 20,
        -2147483648 <= n <= 4294967295 ==> signed_decimal(n).len() <= 11,
{
    assert(pow10(19) == 10000000000000000000 && pow10(10) == 10000000000) by {
        reveal_with_fuel(pow10, 20);
    }
    if n < 0 {
        lemma_decimal_length((-n) as nat, 19);
        if -2147483648 <= n {
            lemma_decimal_length((-n) as nat, 10);
        }
    } else {
        lemma_decimal_length(n as nat, 19);
        if n <= 4294967295 {
            lemma_decimal_length(n as nat, 10);
        }
    }
}

/// Whether two texts hold the same characters.
pub fn equal_text(a: &str, b: &str) -> (same: bool)
    ensures
        same == (a@ == b@),
{
    let x = a.as_bytes();
    let y = b.as_bytes();
    proof {
        vstd::utf8::encode_utf8_decode_utf8(a@);
        vstd::utf8::encode_utf8_decode_utf8(b@);
    }
    if x.len() != y.len() {
        return false;
    }
    let mut i: usize = 0;
    while i < x.len()
        invariant
            x@ == a.spec_bytes(),
            y@ == b.spec_bytes(),
            x@.len() == y@.len(),
            i <= x@.len(),
            forall|k: int| 0 <= k < i ==> x@[k] == y@[k],
        decreases x.len() - i,
    {
        if x[i] != y[i] {
            return false;
        }
        i += 1;
    }
    assert(x@ =~= y@);
    true
}

} // verus!
