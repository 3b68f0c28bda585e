//! The RFC 3339 text of a moment in UTC, with three fractional digits and the
//! designator `Z`: what it is, how it is read back, and how the two relate.

use crate::civil::{fields_valid, UtcDateTime, NANOS_PER_MILLI};
use vstd::prelude::*;
use vstd::string::StrSliceExecFns;

verus! {

/// The length of the text of a moment whose year has four digits.
pub const FIXED_LEN: usize = 24;

/// The character of the decimal digit `d` (0 to 9).
pub open spec fn digit_char(d: int) -> char {
    (d + 48) as char
}

/// Whether `c` is one of `0` to `9`.
pub open spec fn is_digit(c: char) -> bool {
    48 <= c as int <= 57
}

/// The number that the digit `c` stands for.
pub open spec fn digit_value(c: char) -> int {
    c as int - 48
}

/// `n` (0 to 99) in two digits.
pub open spec fn two_digits(n: int) -> Seq<char> {
    seq![digit_char(n / 10), digit_char(n % 10)]
}

/// `n` (0 to 9999) in four digits.
pub open spec fn four_digits(n: int) -> Seq<char> {
    seq![
        digit_char(n / 1000),
        digit_char(n / 100 % 10),
        digit_char(n / 10 % 10),
        digit_char(n % 10),
    ]
}

/// `n` in as many decimal digits as it takes, at least one.
pub open spec fn decimal(n: nat) -> Seq<char>
    decreases n,
{
    if n < 10 {
        seq![digit_char(n as int)]
    } else {
        decimal(n / 10).push(digit_char(n as int % 10))
    }
}

/// The year of a date: four digits from 0 to 9999; any other year with its
/// sign, and with at least four digits.
pub open spec fn year_text(year: int) -> Seq<char> {
    if 0 <= year <= 9999 {
        four_digits(year)
    } else if year > 9999 {
        seq!['+'] + decimal(year as nat)
    } else if year > -10000 {
        seq!['-'] + four_digits(-year)
    } else {
        seq!['-'] + decimal((-year) as nat)
    }
}

/// What follows the year: `-MM-DDTHH:MM:SS.sssZ`, twenty characters.
pub open spec fn after_year_text(t: UtcDateTime) -> Seq<char> {
    seq![
        '-',
        digit_char(t.month as int / 10),
        digit_char(t.month as int % 10),
        '-',
        digit_char(t.day as int / 10),
        digit_char(t.day as int % 10),
        'T',
        digit_char(t.hour as int / 10),
        digit_char(t.hour as int % 10),
        ':',
        digit_char(t.minute as int / 10),
        digit_char(t.minute as int % 10),
        ':',
        digit_char(t.second as int / 10),
        digit_char(t.second as int % 10),
        '.',
        digit_char(t.millisecond() / 100),
        digit_char(t.millisecond() / 10 % 10),
        digit_char(t.millisecond() % 10),
        'Z',
    ]
}

/// The RFC 3339 text of `t` with millisecond precision.
pub open spec fn rfc3339_millis_text(t: UtcDateTime) -> Seq<char> {
    year_text(t.year as int) + after_year_text(t)
}

/// Whether `s` is laid out as `YYYY-MM-DDTHH:MM:SS.sssZ`: digits where the
/// letters stand, each other character as written.
pub open spec fn has_fixed_layout(s: Seq<char>) -> bool {
    &&& s.len() == FIXED_LEN
    &&& is_digit(s[0]) && is_digit(s[1]) && is_digit(s[2]) && is_digit(s[3])
    &&& s[4] == '-'
    &&& is_digit(s[5]) && is_digit(s[6])
    &&& s[7] == '-'
    &&& is_digit(s[8]) && is_digit(s[9])
    &&& s[10] == 'T'
    &&& is_digit(s[11]) && is_digit(s[12])
    &&& s[13] == ':'
    &&& is_digit(s[14]) && is_digit(s[15])
    &&& s[16] == ':'
    &&& is_digit(s[17]) && is_digit(s[18])
    &&& s[19] == '.'
    &&& is_digit(s[20]) && is_digit(s[21]) && is_digit(s[22])
    &&& s[23] == 'Z'
}

/// The number that the two characters of `s` from `i` on write.
pub open spec fn two_at(s: Seq<char>, i: int) -> int {
    digit_value(s[i]) * 10 + digit_value(s[i + 1])
}

/// The number that the three characters of `s` from `i` on write.
pub open spec fn three_at(s: Seq<char>, i: int) -> int {
    two_at(s, i) * 10 + digit_value(s[i + 2])
}

/// The number that the four characters of `s` from `i` on write.
pub open spec fn four_at(s: Seq<char>, i: int) -> int {
    three_at(s, i) * 10 + digit_value(s[i + 3])
}

/// The fields that a text of the fixed layout writes down, valid or not.
pub open spec fn fields_written(s: Seq<char>) -> UtcDateTime {
    UtcDateTime {
        year: four_at(s, 0) as i32,
        month: two_at(s, 5) as u32,
        day: two_at(s, 8) as u32,
        hour: two_at(s, 11) as u32,
        minute: two_at(s, 14) as u32,
        second: two_at(s, 17) as u32,
        nanosecond: (three_at(s, 20) * NANOS_PER_MILLI) as u32,
    }
}

/// The moment that `s` writes down: `s` has the fixed layout and its fields
/// name a moment; `None` for every other text.
pub open spec fn parsed_text(s: Seq<char>) -> Option<UtcDateTime> {
    if has_fixed_layout(s) && fields_written(s).wf() {
        Some(fields_written(s))
    } else {
        None
    }
}

/// Writes a moment down through `chrono`: builds the `DateTime<Utc>` that has
/// the fields of `t` (`NaiveDate::from_ymd_opt`, `and_hms_nano_opt`,
/// `and_utc`) and calls `DateTime::to_rfc3339_opts` on it with
/// `SecondsFormat::Millis` and `Z` for the offset. Believed, not proved: the
/// result is the year as `year_text` gives it, then month, day, hour, minute
/// and second in two digits each, the whole milliseconds in three, between the
/// separators `-`, `-`, `T`, `:`, `:`, `.`, and `Z` at the end. The fields must
/// name a moment, or the constructors have nothing to hand on.
#[verifier::external_body]
pub(crate) fn write_rfc3339_millis(t: &UtcDateTime) -> (s: String)
    requires
        t.wf(),
    ensures
        s@ == rfc3339_millis_text(*t),
{
    let date = chrono::NaiveDate::from_ymd_opt(t.year, t.month, t.day).unwrap();
    let naive = date.and_hms_nano_opt(t.hour, t.minute, t.second, t.nanosecond).unwrap();
    naive.and_utc().to_rfc3339_opts(chrono::SecondsFormat::Millis, true)
}

impl UtcDateTime {
    /// The RFC 3339 text of the moment, with millisecond precision and `Z`;
    /// `None` where the fields name no moment. With a year of four digits the
    /// text has the fixed layout `YYYY-MM-DDTHH:MM:SS.sssZ`.
    pub fn to_rfc3339_millis(&self) -> (r: Option<String>)
        ensures
            self.wf() <==> r is Some,
            r is Some ==> r.unwrap()@ == rfc3339_millis_text(*self),
            r is Some && 0 <= self.year <= 9999 ==> has_fixed_layout(r.unwrap()@),
    {
        if self.is_valid() {
            proof {
                if 0 <= self.year <= 9999 {
                    lemma_text_has_fixed_layout(*self);
                }
            }
            Some(write_rfc3339_millis(self))
        } else {
            None
        }
    }
}

/// Reads the digit at place `i` of `s`; `None` where another character stands.
fn digit_at(s: &str, i: usize) -> (r: Option<u32>)
    requires
        i < s@.len(),
    ensures
        r == (if is_digit(s@[i as int]) {
            Some(digit_value(s@[i as int]) as u32)
        } else {
            None
        }),
{
    let c = s.get_char(i);
    if '0' <= c && c <= '9' {
        Some(c as u32 - 48)
    } else {
        None
    }
}

/// Reads the two digits from place `i` of `s` on; `None` unless both are digits.
fn two_digits_at(s: &str, i: usize) -> (r: Option<u32>)
    requires
        i + 1 < s@.len() <= usize::MAX,
    ensures
        r == (if is_digit(s@[i as int]) && is_digit(s@[i + 1]) {
            Some(two_at(s@, i as int) as u32)
        } else {
            None
        }),
        r is Some ==> r.unwrap() <= 99,
{
    match (digit_at(s, i), digit_at(s, i + 1)) {
        (Some(hi), Some(lo)) => Some(hi * 10 + lo),
        _ => None,
    }
}

/// Reads the three digits from place `i` of `s` on; `None` unless all are digits.
fn three_digits_at(s: &str, i: usize) -> (r: Option<u32>)
    requires
        i + 2 < s@.len() <= usize::MAX,
    ensures
        r == (if is_digit(s@[i as int]) && is_digit(s@[i + 1]) && is_digit(s@[i + 2]) {
            Some(three_at(s@, i as int) as u32)
        } else {
            None
        }),
        r is Some ==> r.unwrap() <= 999,
{
    match (two_digits_at(s, i), digit_at(s, i + 2)) {
        (Some(hi), Some(lo)) => Some(hi * 10 + lo),
        _ => None,
    }
}

/// Whether the separators of the fixed layout stand in `s`, each at its place.
fn separators_in_place(s: &str) -> (r: bool)
    requires
        s@.len() == FIXED_LEN,
    ensures
        r == (s@[4] == '-' && s@[7] == '-' && s@[10] == 'T' && s@[13] == ':' && s@[16] == ':'
            && s@[19] == '.' && s@[23] == 'Z'),
{
    s.get_char(4) == '-' && s.get_char(7) == '-' && s.get_char(10) == 'T' && s.get_char(13)
        == ':' && s.get_char(16) == ':' && s.get_char(19) == '.' && s.get_char(23) == 'Z'
}

/// Reads a text of the layout `YYYY-MM-DDTHH:MM:SS.sssZ` back into the moment
/// that it writes down. Any other text, and one whose fields name no moment
/// (a 30th of February, an hour 24), gives `None`.
pub fn parse_rfc3339_millis(s: &str) -> (r: Option<UtcDateTime>)
    ensures
        r == parsed_text(s@),
        r is Some ==> r.unwrap().wf() && rfc3339_millis_text(r.unwrap()) == s@,
{
    if s.unicode_len() != FIXED_LEN {
        return None;
    }
    if !separators_in_place(s) {
        return None;
    }
    let fields = (
        two_digits_at(s, 0),
        two_digits_at(s, 2),
        two_digits_at(s, 5),
        two_digits_at(s, 8),
        two_digits_at(s, 11),
        two_digits_at(s, 14),
        two_digits_at(s, 17),
        three_digits_at(s, 20),
    );
    match fields {
        (
            Some(century),
            Some(years),
            Some(month),
            Some(day),
            Some(hour),
            Some(minute),
            Some(second),
            Some(millis),
        ) => {
            let year: u32 = century * 100 + years;
            let t = UtcDateTime {
                year: year as i32,
                month,
                day,
                hour,
                minute,
                second,
                nanosecond: millis * NANOS_PER_MILLI,
            };
            assert(t == fields_written(s@));
            if t.is_valid() {
                proof {
                    lemma_text_inverts_parse(s@);
                }
                Some(t)
            } else {
                None
            }
        },
        _ => None,
    }
}

/// A moment whose year has four digits is written in the fixed layout
/// `YYYY-MM-DDTHH:MM:SS.sssZ`: twenty-four characters, three of them for the
/// milliseconds, the last one `Z`.
pub proof fn lemma_text_has_fixed_layout(t: UtcDateTime)
    requires
        t.wf(),
        0 <= t.year <= 9999,
    ensures
        has_fixed_layout(rfc3339_millis_text(t)),
{
    let s = rfc3339_millis_text(t);
    assert(s.len() == 24);
}

/// The text does not depend on what lies below the millisecond.
pub proof fn lemma_text_ignores_sub_millis(t: UtcDateTime)
    ensures
        rfc3339_millis_text(t.floor_millis()) == rfc3339_millis_text(t),
        t.wf() ==> t.floor_millis().wf(),
{
    assert(t.floor_millis().millisecond() == t.millisecond());
}

/// Reading the text of a moment whose year has four digits gives the moment
/// back, cut off at the millisecond.
pub proof fn lemma_parse_inverts_text(t: UtcDateTime)
    requires
        t.wf(),
        0 <= t.year <= 9999,
    ensures
        parsed_text(rfc3339_millis_text(t)) == Some(t.floor_millis()),
{
    let s = rfc3339_millis_text(t);
    lemma_text_has_fixed_layout(t);
    lemma_text_ignores_sub_millis(t);
    assert(fields_written(s) == t.floor_millis());
}

/// A digit is the character of the number that it stands for.
proof fn lemma_digit_char_of_value(c: char)
    requires
        is_digit(c),
    ensures
        digit_char(digit_value(c)) == c,
        0 <= digit_value(c) <= 9,
{
}

/// The digits of a number of up to four digits, from its decimal places.
proof fn lemma_decimal_places(a: int, b: int, c: int, d: int)
    requires
        0 <= a <= 9,
        0 <= b <= 9,
        0 <= c <= 9,
        0 <= d <= 9,
    ensures
        (a * 10 + b) / 10 == a,
        (a * 10 + b) % 10 == b,
        ((a * 10 + b) * 10 + c) / 100 == a,
        ((a * 10 + b) * 10 + c) / 10 % 10 == b,
        ((a * 10 + b) * 10 + c) % 10 == c,
        (((a * 10 + b) * 10 + c) * 10 + d) / 1000 == a,
        (((a * 10 + b) * 10 + c) * 10 + d) / 100 % 10 == b,
        (((a * 10 + b) * 10 + c) * 10 + d) / 10 % 10 == c,
        (((a * 10 + b) * 10 + c) * 10 + d) % 10 == d,
{
}

/// Two digits of a text are the two-digit form of the number they write.
proof fn lemma_two_digits_of_two_at(s: Seq<char>, i: int)
    requires
        0 <= i,
        i + 1 < s.len(),
        is_digit(s[i]),
        is_digit(s[i + 1]),
    ensures
        0 <= two_at(s, i) <= 99,
        digit_char(two_at(s, i) / 10) == s[i],
        digit_char(two_at(s, i) % 10) == s[i + 1],
{
    lemma_digit_char_of_value(s[i]);
    lemma_digit_char_of_value(s[i + 1]);
    lemma_decimal_places(digit_value(s[i]), digit_value(s[i + 1]), 0, 0);
}

/// Three digits of a text are the three-digit form of the number they write.
proof fn lemma_three_digits_of_three_at(s: Seq<char>, i: int)
    requires
        0 <= i,
        i + 2 < s.len(),
        is_digit(s[i]),
        is_digit(s[i + 1]),
        is_digit(s[i + 2]),
    ensures
        0 <= three_at(s, i) <= 999,
        digit_char(three_at(s, i) / 100) == s[i],
        digit_char(three_at(s, i) / 10 % 10) == s[i + 1],
        digit_char(three_at(s, i) % 10) == s[i + 2],
{
    lemma_digit_char_of_value(s[i]);
    lemma_digit_char_of_value(s[i + 1]);
    lemma_digit_char_of_value(s[i + 2]);
    lemma_decimal_places(digit_value(s[i]), digit_value(s[i + 1]), digit_value(s[i + 2]), 0);
}

/// Four digits of a text are the four-digit form of the number they write.
proof fn lemma_four_digits_of_four_at(s: Seq<char>, i: int)
    requires
        0 <= i,
        i + 3 < s.len(),
        is_digit(s[i]),
        is_digit(s[i + 1]),
        is_digit(s[i + 2]),
        is_digit(s[i + 3]),
    ensures
        0 <= four_at(s, i) <= 9999,
        four_digits(four_at(s, i)) =~= s.subrange(i, i + 4),
{
    lemma_digit_char_of_value(s[i]);
    lemma_digit_char_of_value(s[i + 1]);
    lemma_digit_char_of_value(s[i + 2]);
    lemma_digit_char_of_value(s[i + 3]);
    lemma_decimal_places(
        digit_value(s[i]),
        digit_value(s[i + 1]),
        digit_value(s[i + 2]),
        digit_value(s[i + 3]),
    );
}

/// Writing down the moment that a text was read as gives that text again.
pub proof fn lemma_text_inverts_parse(s: Seq<char>)
    requires
        parsed_text(s) is Some,
    ensures
        parsed_text(s).unwrap().wf(),
        rfc3339_millis_text(parsed_text(s).unwrap()) == s,
{
    let t = parsed_text(s).unwrap();
    lemma_four_digits_of_four_at(s, 0);
    lemma_two_digits_of_two_at(s, 5);
    lemma_two_digits_of_two_at(s, 8);
    lemma_two_digits_of_two_at(s, 11);
    lemma_two_digits_of_two_at(s, 14);
    lemma_two_digits_of_two_at(s, 17);
    lemma_three_digits_of_three_at(s, 20);
    assert(t.year as int == four_at(s, 0));
    assert(t.millisecond() == three_at(s, 20));
    assert(year_text(t.year as int) =~= s.subrange(0, 4));
    assert(after_year_text(t) =~= s.subrange(4, 24));
    assert(s.subrange(0, 4) + s.subrange(4, 24) =~= s);
}

/// Reading the text of a moment and writing the result down again gives the
/// same text, for every moment whose year has four digits.
pub proof fn lemma_round_trip(t: UtcDateTime)
    requires
        t.wf(),
        0 <= t.year <= 9999,
    ensures
        parsed_text(rfc3339_millis_text(t)) is Some,
        rfc3339_millis_text(parsed_text(rfc3339_millis_text(t)).unwrap()) == rfc3339_millis_text(t),
{
    lemma_parse_inverts_text(t);
    lemma_text_ignores_sub_millis(t);
}

} // verus!
