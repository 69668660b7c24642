//! The parts of an action token: words, numbers, dates and times of day.

use crate::calendar::{Date, TimeOfDay};
use crate::fields::{
    free_of, join, lemma_join_three, lemma_join_two, lemma_split_join, split, split_text, texts,
};
use crate::text::{
    all_digits, digits_value, fixed_digits, is_digit, is_signed_decimal, lemma_fixed_digits,
    lemma_fixed_digits_of_value, lemma_signed_decimal_of_value, lemma_signed_decimal_value,
    parse_fixed, parse_signed, pow10, render_fixed, render_signed, signed_decimal, signed_value,
};
use crate::words::{is_word_char, lemma_word_chars, lemma_word_text_injective, read_word, word_str, word_text, Word};
use vstd::prelude::*;
use vstd::string::*;

verus! {

/// One part of an action token.
#[derive(Clone, Copy, Debug, PartialEq, Eq, Structural)]
pub enum Arg {
    /// A word of the vocabulary.
    Word(Word),
    /// A number in decimal notation.
    Number(i64),
    /// A date as `YYYY-MM-DD`.
    Day(Date),
    /// A time of day as `HH:MM`.
    Clock(TimeOfDay),
}

/// A date as `YYYY-MM-DD`.
pub open spec fn day_text(date: Date) -> Seq<char> {
    join(
        seq![
            fixed_digits(date.year as nat, 4),
            fixed_digits(date.month as nat, 2),
            fixed_digits(date.day as nat, 2),
        ],
        '-',
    )
}

/// A time of day as `HH:MM`.
pub open spec fn clock_text(time: TimeOfDay) -> Seq<char> {
    join(seq![fixed_digits(time.hour as nat, 2), fixed_digits(time.minute as nat, 2)], ':')
}

/// The text of a part.
pub open spec fn arg_text(arg: Arg) -> Seq<char> {
    match arg {
        Arg::Word(word) => word_text(word),
        Arg::Number(number) => signed_decimal(number as int),
        Arg::Day(date) => day_text(date),
        Arg::Clock(time) => clock_text(time),
    }
}

/// Whether a part can be written: a date must be on the calendar with a
/// year of four digits, a time must be a time of day.
pub open spec fn arg_ok(arg: Arg) -> bool {
    match arg {
        Arg::Word(_) => true,
        Arg::Number(_) => true,
        Arg::Day(date) => date.exists_on_calendar() && 0 <= date.year <= 9999,
        Arg::Clock(time) => time.is_valid(),
    }
}

/// The texts of a list of parts.
pub open spec fn arg_texts(args: Seq<Arg>) -> Seq<Seq<char>> {
    Seq::new(args.len(), |i: int| arg_text(args[i]))
}

/// Whether the fields are the texts of the parts, each of which can be written.
pub open spec fn reads_as(fields: Seq<Seq<char>>, args: Seq<Arg>) -> bool {
    &&& fields.len() == args.len()
    &&& forall|i: int| 0 <= i < args.len() ==> arg_ok(#[trigger] args[i]) && arg_text(args[i]) == fields[i]
}

/// A string of digits holds neither a minus sign nor a colon nor a word character.
proof fn lemma_digits_are_plain(s: Seq<char>)
    requires
        all_digits(s),
    ensures
        free_of(s, '-'),
        free_of(s, ':'),
{
    assert forall|i: int| 0 <= i < s.len() implies #[trigger] s[i] != '-' && s[i] != ':' by {
        assert(is_digit(s[i]));
    }
}

/// The shape of a date text: ten characters, digits around two minus signs.
proof fn lemma_day_text(date: Date)
    ensures
        day_text(date) == fixed_digits(date.year as nat, 4) + seq!['-'] + fixed_digits(
            date.month as nat,
            2,
        ) + seq!['-'] + fixed_digits(date.day as nat, 2),
        day_text(date).len() == 10,
        is_digit(day_text(date)[0]),
        day_text(date)[4] == '-',
        free_of(day_text(date), ':'),
        split(day_text(date), '-') == seq![
            fixed_digits(date.year as nat, 4),
            fixed_digits(date.month as nat, 2),
            fixed_digits(date.day as nat, 2),
        ],
{
    let y = fixed_digits(date.year as nat, 4);
    let m = fixed_digits(date.month as nat, 2);
    let d = fixed_digits(date.day as nat, 2);
    lemma_fixed_digits(date.year as nat, 4);
    lemma_fixed_digits(date.month as nat, 2);
    lemma_fixed_digits(date.day as nat, 2);
    lemma_join_three(y, m, d, '-');
    lemma_digits_are_plain(y);
    lemma_digits_are_plain(m);
    lemma_digits_are_plain(d);
    let text = day_text(date);
    assert(text[0] == y[0]);
    assert forall|i: int| 0 <= i < text.len() implies #[trigger] text[i] != ':' by {
        if i < 4 {
            assert(text[i] == y[i]);
        } else if i == 4 {
        } else if i < 7 {
            assert(text[i] == m[i - 5]);
        } else if i == 7 {
        } else {
            assert(text[i] == d[i - 8]);
        }
    }
    let fields = seq![y, m, d];
    assert forall|i: int| 0 <= i < fields.len() implies free_of(#[trigger] fields[i], '-') by {}
    lemma_split_join(fields, '-');
}

/// The shape of a clock text: five characters, digits around a colon.
proof fn lemma_clock_text(time: TimeOfDay)
    ensures
        clock_text(time) == fixed_digits(time.hour as nat, 2) + seq![':'] + fixed_digits(
            time.minute as nat,
            2,
        ),
        clock_text(time).len() == 5,
        is_digit(clock_text(time)[0]),
        clock_text(time)[2] == ':',
        free_of(clock_text(time), '-'),
        split(clock_text(time), ':') == seq![
            fixed_digits(time.hour as nat, 2),
            fixed_digits(time.minute as nat, 2),
        ],
{
    let h = fixed_digits(time.hour as nat, 2);
    let m = fixed_digits(time.minute as nat, 2);
    lemma_fixed_digits(time.hour as nat, 2);
    lemma_fixed_digits(time.minute as nat, 2);
    lemma_join_two(h, m, ':');
    lemma_digits_are_plain(h);
    lemma_digits_are_plain(m);
    let text = clock_text(time);
    assert(text[0] == h[0]);
    assert forall|i: int| 0 <= i < text.len() implies #[trigger] text[i] != '-' by {
        if i < 2 {
            assert(text[i] == h[i]);
        } else if i == 2 {
        } else {
            assert(text[i] == m[i - 3]);
        }
    }
    let fields = seq![h, m];
    assert forall|i: int| 0 <= i < fields.len() implies free_of(#[trigger] fields[i], ':') by {}
    lemma_split_join(fields, ':');
}

/// The shape of a number text: digits, after a minus sign where the number is negative.
proof fn lemma_number_text(number: i64)
    ensures
        is_signed_decimal(signed_decimal(number as int)),
        signed_value(signed_decimal(number as int)) == number,
        signed_decimal(number as int).len() >= 1,
        is_digit(signed_decimal(number as int)[0]) || signed_decimal(number as int)[0] == '-',
        forall|i: int|
            1 <= i < signed_decimal(number as int).len() ==> is_digit(
                #[trigger] signed_decimal(number as int)[i],
            ),
        free_of(signed_decimal(number as int), ':'),
{
    lemma_signed_decimal_value(number as int);
    let text = signed_decimal(number as int);
    if number < 0 {
        let rest = text.skip(1);
        assert forall|i: int| 1 <= i < text.len() implies is_digit(#[trigger] text[i]) by {
            assert(text[i] == rest[i - 1]);
        }
    }
    assert forall|i: int| 0 <= i < text.len() implies #[trigger] text[i] != ':' by {
        if i >= 1 {
            assert(is_digit(text[i]));
        }
    }
}

/// A part holds no colon unless it is a time of day, and no minus sign if
/// it is a word or a time of day.
pub proof fn lemma_arg_separators(arg: Arg)
    ensures
        !(arg is Clock) ==> free_of(arg_text(arg), ':'),
        (arg is Clock || arg is Word) ==> free_of(arg_text(arg), '-'),
        arg_text(arg).len() >= 1,
        arg is Word ==> 97 <= arg_text(arg)[0] as int <= 122,
        !(arg is Word) ==> is_digit(arg_text(arg)[0]) || arg_text(arg)[0] == '-',
{
    match arg {
        Arg::Word(word) => {
            lemma_word_chars(word);
            let text = word_text(word);
            assert forall|i: int| 0 <= i < text.len() implies #[trigger] text[i] != ':' && text[i]
                != '-' by {
                assert(is_word_char(text[i]));
            }
        },
        Arg::Number(number) => {
            lemma_number_text(number);
        },
        Arg::Day(date) => {
            lemma_day_text(date);
        },
        Arg::Clock(time) => {
            lemma_clock_text(time);
        },
    }
}

/// How long the text of a part can be.
pub proof fn lemma_arg_length(arg: Arg)
    ensures
        match arg {
            Arg::Word(word) => arg_text(arg).len() <= 21,
            Arg::Number(number) => arg_text(arg).len() <= 20 && (-2147483648 <= number <= 4294967295
                ==> arg_text(arg).len() <= 11),
            Arg::Day(date) => arg_text(arg).len() == 10,
            Arg::Clock(time) => arg_text(arg).len() == 5,
        },
{
    match arg {
        Arg::Word(word) => {
            crate::words::lemma_word_letters(word);
        },
        Arg::Number(number) => {
            crate::text::lemma_signed_decimal_length(number as int);
        },
        Arg::Day(date) => {
            lemma_day_text(date);
        },
        Arg::Clock(time) => {
            lemma_clock_text(time);
        },
    }
}

/// The text of a part is made of ASCII characters.
pub proof fn lemma_arg_is_ascii(arg: Arg)
    ensures
        vstd::utf8::is_ascii_chars(arg_text(arg)),
{
    let text = arg_text(arg);
    match arg {
        Arg::Word(word) => {
            lemma_word_chars(word);
            assert forall|i: int| 0 <= i < text.len() implies '\0' <= #[trigger] text[i] <= '\u{7f}' by {
                assert(is_word_char(text[i]));
            }
        },
        Arg::Number(number) => {
            lemma_number_text(number);
            assert forall|i: int| 0 <= i < text.len() implies '\0' <= #[trigger] text[i] <= '\u{7f}' by {
                if i >= 1 {
                    assert(is_digit(text[i]));
                }
            }
        },
        Arg::Day(date) => {
            lemma_day_text(date);
            let y = fixed_digits(date.year as nat, 4);
            let m = fixed_digits(date.month as nat, 2);
            let d = fixed_digits(date.day as nat, 2);
            lemma_fixed_digits(date.year as nat, 4);
            lemma_fixed_digits(date.month as nat, 2);
            lemma_fixed_digits(date.day as nat, 2);
            assert forall|i: int| 0 <= i < text.len() implies '\0' <= #[trigger] text[i] <= '\u{7f}' by {
                if i < 4 {
                    assert(text[i] == y[i]);
                } else if i == 4 {
                } else if i < 7 {
                    assert(text[i] == m[i - 5]);
                } else if i == 7 {
                } else {
                    assert(text[i] == d[i - 8]);
                }
            }
        },
        Arg::Clock(time) => {
            lemma_clock_text(time);
            let h = fixed_digits(time.hour as nat, 2);
            let m = fixed_digits(time.minute as nat, 2);
            lemma_fixed_digits(time.hour as nat, 2);
            lemma_fixed_digits(time.minute as nat, 2);
            assert forall|i: int| 0 <= i < text.len() implies '\0' <= #[trigger] text[i] <= '\u{7f}' by {
                if i < 2 {
                    assert(text[i] == h[i]);
                } else if i == 2 {
                } else {
                    assert(text[i] == m[i - 3]);
                }
            }
        },
    }
}

/// Two parts that can be written and have the same text are the same part.
pub proof fn lemma_arg_text_injective(a: Arg, b: Arg)
    requires
        arg_ok(a),
        arg_ok(b),
        arg_text(a) == arg_text(b),
    ensures
        a == b,
{
    lemma_arg_separators(a);
    lemma_arg_separators(b);
    reveal_with_fuel(pow10, 5);
    match (a, b) {
        (Arg::Word(x), Arg::Word(y)) => {
            lemma_word_text_injective(x, y);
        },
        (Arg::Number(x), Arg::Number(y)) => {
            lemma_number_text(x);
            lemma_number_text(y);
        },
        (Arg::Day(x), Arg::Day(y)) => {
            lemma_day_text(x);
            lemma_day_text(y);
            let fx = split(day_text(x), '-');
            let fy = split(day_text(y), '-');
            assert(fx[0] == fy[0] && fx[1] == fy[1] && fx[2] == fy[2]);
            lemma_fixed_digits(x.year as nat, 4);
            lemma_fixed_digits(y.year as nat, 4);
            lemma_fixed_digits(x.month as nat, 2);
            lemma_fixed_digits(y.month as nat, 2);
            lemma_fixed_digits(x.day as nat, 2);
            lemma_fixed_digits(y.day as nat, 2);
        },
        (Arg::Clock(x), Arg::Clock(y)) => {
            lemma_clock_text(x);
            lemma_clock_text(y);
            let fx = split(clock_text(x), ':');
            let fy = split(clock_text(y), ':');
            assert(fx[0] == fy[0] && fx[1] == fy[1]);
            lemma_fixed_digits(x.hour as nat, 2);
            lemma_fixed_digits(y.hour as nat, 2);
            lemma_fixed_digits(x.minute as nat, 2);
            lemma_fixed_digits(y.minute as nat, 2);
        },
        (Arg::Number(x), Arg::Day(y)) => {
            lemma_number_text(x);
            lemma_day_text(y);
            assert(is_digit(arg_text(a)[4]));
        },
        (Arg::Day(x), Arg::Number(y)) => {
            lemma_number_text(y);
            lemma_day_text(x);
            assert(is_digit(arg_text(b)[4]));
        },
        (Arg::Number(x), Arg::Clock(y)) => {
            lemma_number_text(x);
            lemma_clock_text(y);
            assert(is_digit(arg_text(a)[2]));
        },
        (Arg::Clock(x), Arg::Number(y)) => {
            lemma_number_text(y);
            lemma_clock_text(x);
            assert(is_digit(arg_text(b)[2]));
        },
        (Arg::Day(x), Arg::Clock(y)) => {
            lemma_day_text(x);
            lemma_clock_text(y);
        },
        (Arg::Clock(x), Arg::Day(y)) => {
            lemma_day_text(y);
            lemma_clock_text(x);
        },
        _ => {},
    }
}

/// The parts that some fields are the texts of are determined by the fields.
pub proof fn lemma_reading_unique(fields: Seq<Seq<char>>, a: Seq<Arg>, b: Seq<Arg>)
    requires
        reads_as(fields, a),
        reads_as(fields, b),
    ensures
        a == b,
{
    assert forall|i: int| 0 <= i < a.len() implies a[i] == b[i] by {
        lemma_arg_text_injective(a[i], b[i]);
    }
    assert(a =~= b);
}

/// Reads a date: four, two and two digits between minus signs that name a day of the calendar.
fn read_day(text: &str) -> (date: Option<Date>)
    requires
        is_ascii(text),
    ensures
        match date {
            Some(date) => arg_ok(Arg::Day(date)) && day_text(date) == text@,
            None => forall|other: Date| arg_ok(Arg::Day(other)) ==> #[trigger] day_text(other) != text@,
        },
{
    proof {
        reveal_with_fuel(pow10, 5);
        assert forall|other: Date| arg_ok(Arg::Day(other)) && #[trigger] day_text(other)
            == text@ implies {
            let fields = split(text@, '-');
            &&& fields.len() == 3
            &&& fields[0] == fixed_digits(other.year as nat, 4)
            &&& fields[1] == fixed_digits(other.month as nat, 2)
            &&& fields[2] == fixed_digits(other.day as nat, 2)
            &&& digits_value(fields[0]) == other.year
            &&& digits_value(fields[1]) == other.month
            &&& digits_value(fields[2]) == other.day
            &&& all_digits(fields[0]) && all_digits(fields[1]) && all_digits(fields[2])
            &&& fields[0].len() == 4 && fields[1].len() == 2 && fields[2].len() == 2
        } by {
            lemma_day_text(other);
            lemma_fixed_digits(other.year as nat, 4);
            lemma_fixed_digits(other.month as nat, 2);
            lemma_fixed_digits(other.day as nat, 2);
        }
    }
    let parts = split_text(text, 45);
    if parts.len() != 3 {
        return None;
    }
    assert(texts(parts@)[0] == parts@[0]@ && texts(parts@)[1] == parts@[1]@ && texts(parts@)[2]
        == parts@[2]@);
    let year = parse_fixed(parts[0], 4);
    let month = parse_fixed(parts[1], 2);
    let day = parse_fixed(parts[2], 2);
    match (year, month, day) {
        (Some(year), Some(month), Some(day)) => {
            proof {
                lemma_fixed_digits_of_value(parts@[0]@);
                lemma_fixed_digits_of_value(parts@[1]@);
                lemma_fixed_digits_of_value(parts@[2]@);
            }
            match Date::from_ymd(year as i32, month, day) {
                Some(date) => {
                    proof {
                        let fields = seq![parts@[0]@, parts@[1]@, parts@[2]@];
                        assert(fields =~= split(text@, '-'));
                        crate::fields::lemma_join_split(text@, '-');
                    }
                    Some(date)
                },
                None => None,
            }
        },
        _ => None,
    }
}

/// Reads a time of day: two and two digits around a colon.
fn read_clock(text: &str) -> (time: Option<TimeOfDay>)
    requires
        is_ascii(text),
    ensures
        match time {
            Some(time) => arg_ok(Arg::Clock(time)) && clock_text(time) == text@,
            None => forall|other: TimeOfDay|
                arg_ok(Arg::Clock(other)) ==> #[trigger] clock_text(other) != text@,
        },
{
    proof {
        reveal_with_fuel(pow10, 5);
        assert forall|other: TimeOfDay| arg_ok(Arg::Clock(other)) && #[trigger] clock_text(other)
            == text@ implies {
            let fields = split(text@, ':');
            &&& fields.len() == 2
            &&& fields[0] == fixed_digits(other.hour as nat, 2)
            &&& fields[1] == fixed_digits(other.minute as nat, 2)
            &&& digits_value(fields[0]) == other.hour
            &&& digits_value(fields[1]) == other.minute
            &&& all_digits(fields[0]) && all_digits(fields[1])
            &&& fields[0].len() == 2 && fields[1].len() == 2
        } by {
            lemma_clock_text(other);
            lemma_fixed_digits(other.hour as nat, 2);
            lemma_fixed_digits(other.minute as nat, 2);
        }
    }
    let parts = split_text(text, 58);
    if parts.len() != 2 {
        return None;
    }
    assert(texts(parts@)[0] == parts@[0]@ && texts(parts@)[1] == parts@[1]@);
    let hour = parse_fixed(parts[0], 2);
    let minute = parse_fixed(parts[1], 2);
    match (hour, minute) {
        (Some(hour), Some(minute)) => {
            let time = TimeOfDay { hour, minute };
            if time.check() {
                proof {
                    lemma_fixed_digits_of_value(parts@[0]@);
                    lemma_fixed_digits_of_value(parts@[1]@);
                    let fields = seq![parts@[0]@, parts@[1]@];
                    assert(fields =~= split(text@, ':'));
                    crate::fields::lemma_join_split(text@, ':');
                }
                Some(time)
            } else {
                None
            }
        },
        _ => None,
    }
}

/// Reads one part: a word, a number, a date or a time of day.
pub fn read_arg(text: &str) -> (arg: Option<Arg>)
    requires
        is_ascii(text),
    ensures
        match arg {
            Some(arg) => arg_ok(arg) && arg_text(arg) == text@,
            None => forall|other: Arg| arg_ok(other) ==> #[trigger] arg_text(other) != text@,
        },
{
    match read_word(text) {
        Some(word) => {
            return Some(Arg::Word(word));
        },
        None => {},
    }
    match parse_signed(text, 9223372036854775808, 9223372036854775807) {
        Some(number) => {
            proof {
                lemma_signed_decimal_of_value(text@);
            }
            return Some(Arg::Number(number));
        },
        None => {},
    }
    match read_day(text) {
        Some(date) => {
            return Some(Arg::Day(date));
        },
        None => {},
    }
    match read_clock(text) {
        Some(time) => {
            return Some(Arg::Clock(time));
        },
        None => {},
    }
    proof {
        assert forall|other: Arg| arg_ok(other) implies #[trigger] arg_text(other) != text@ by {
            match other {
                Arg::Word(word) => {},
                Arg::Number(number) => {
                    lemma_signed_decimal_value(number as int);
                },
                Arg::Day(date) => {},
                Arg::Clock(time) => {},
            }
        }
    }
    None
}

/// Reads every field as a part. `None` where some field is no part.
pub fn read_args(parts: &Vec<&str>) -> (args: Option<Vec<Arg>>)
    requires
        forall|i: int| 0 <= i < parts.len() ==> is_ascii(#[trigger] parts[i]),
    ensures
        match args {
            Some(args) => reads_as(texts(parts@), args@),
            None => forall|other: Seq<Arg>| !reads_as(texts(parts@), other),
        },
{
    let mut args: Vec<Arg> = Vec::new();
    let mut i: usize = 0;
    while i < parts.len()
        invariant
            i <= parts.len(),
            args@.len() == i,
            forall|k: int| 0 <= k < parts.len() ==> is_ascii(#[trigger] parts[k]),
            forall|k: int| 0 <= k < i ==> arg_ok(#[trigger] args@[k]) && arg_text(args@[k]) == parts@[k]@,
        decreases parts.len() - i,
    {
        match read_arg(parts[i]) {
            Some(arg) => {
                args.push(arg);
            },
            None => {
                proof {
                    assert forall|other: Seq<Arg>| !reads_as(texts(parts@), other) by {
                        if reads_as(texts(parts@), other) {
                            assert(arg_ok(other[i as int]));
                            assert(arg_text(other[i as int]) == texts(parts@)[i as int]);
                        }
                    }
                }
                return None;
            },
        }
        i += 1;
    }
    Some(args)
}

/// Writes one part.
pub fn render_arg(arg: Arg) -> (text: String)
    requires
        arg_ok(arg),
    ensures
        text@ == arg_text(arg),
{
    match arg {
        Arg::Word(word) => String::from_str(word_str(word)),
        Arg::Number(number) => render_signed(number),
        Arg::Day(date) => {
            let mut text = render_fixed(date.year as u32, 4);
            text.append("-");
            let month = render_fixed(date.month, 2);
            text.append(month.as_str());
            text.append("-");
            let day = render_fixed(date.day, 2);
            text.append(day.as_str());
            proof {
                reveal_strlit("-");
                lemma_day_text(date);
                assert("-"@ =~= seq!['-']);
            }
            text
        },
        Arg::Clock(time) => {
            let mut text = render_fixed(time.hour, 2);
            text.append(":");
            let minute = render_fixed(time.minute, 2);
            text.append(minute.as_str());
            proof {
                reveal_strlit(":");
                lemma_clock_text(time);
                assert(":"@ =~= seq![':']);
            }
            text
        },
    }
}

} // verus!
