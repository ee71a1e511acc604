//! Calendar dates as the scripts write them: `year.month.day`.

use vstd::prelude::*;
use crate::token::{first_index, parse_int_in, parse_int_range, scan_forward, to_chars, CharClass};

verus! {

/// A date of the game's calendar. Months run from 1 to 12 and days from 1
/// to 31, whatever the month.
#[derive(Clone, Copy, Debug, PartialEq, Eq, Structural)]
pub struct Date {
    pub year: i16,
    pub month: i8,
    pub day: i8,
}

/// The text before the first point, or all of it where it holds none.
pub open spec fn date_field(t: Seq<char>) -> Seq<char> {
    t.take(first_index(t, '.') as int)
}

/// The text after the first point; `None` where it holds none.
pub open spec fn after_field(t: Seq<char>) -> Option<Seq<char>> {
    if first_index(t, '.') < t.len() {
        Some(t.skip(first_index(t, '.') as int + 1))
    } else {
        None
    }
}

/// The text without the point at its end, if it ends in one.
pub open spec fn without_final_dot(t: Seq<char>) -> Seq<char> {
    if t.len() > 0 && t.last() == '.' {
        t.drop_last()
    } else {
        t
    }
}

/// The month or day that a field writes, between 1 and `hi`; 1 where the
/// field is absent.
pub open spec fn date_part(f: Option<Seq<char>>, hi: int) -> Option<int> {
    match f {
        None => Some(1),
        Some(t) => parse_int_in(t, 1, hi),
    }
}

/// The date that the three fields write.
pub open spec fn make_date(y: Seq<char>, m: Option<Seq<char>>, d: Option<Seq<char>>) -> Option<Date> {
    match (parse_int_in(y, i16::MIN as int, i16::MAX as int), date_part(m, 12), date_part(d, 31)) {
        (Some(year), Some(month), Some(day)) => Some(
            Date { year: year as i16, month: month as i8, day: day as i8 },
        ),
        _ => None,
    }
}

/// The date that a text writes: a year, then optionally a point and a
/// month, then optionally a point and a day, each an integer; one more
/// point may end the text. `None` for every other text.
pub open spec fn parse_date(text: Seq<char>) -> Option<Date> {
    let t = without_final_dot(text);
    let y = date_field(t);
    match after_field(t) {
        None => make_date(y, None, None),
        Some(r1) => match after_field(r1) {
            None => make_date(y, Some(date_field(r1)), None),
            Some(r2) => match after_field(r2) {
                None => make_date(y, Some(date_field(r1)), Some(date_field(r2))),
                Some(_) => None,
            },
        },
    }
}

impl Date {
    /// Reads a date.
    pub fn parse(s: &str) -> (r: Option<Date>)
        ensures
            r == parse_date(s@),
    {
        let chars = to_chars(s);
        Date::parse_chars(&chars)
    }

    /// Reads a date from its characters.
    pub fn parse_chars(chars: &Vec<char>) -> (r: Option<Date>)
        ensures
            r == parse_date(chars@),
    {
        let len = chars.len();
        let n: usize = if len > 0 && chars[len - 1] == '.' { len - 1 } else { len };
        let ghost t = chars@.subrange(0, n as int);
        assert(t =~= without_final_dot(chars@));
        let first_dot = scan_forward(chars, 0, n, CharClass::Not('.'));
        assert(date_field(t) =~= chars@.subrange(0, first_dot as int));
        let year = match parse_int_range(chars, 0, first_dot, -32768, 32767) {
            Some(v) => v,
            None => {
                return None;
            },
        };
        let mut month: i64 = 1;
        let mut day: i64 = 1;
        if first_dot < n {
            let ghost r1 = chars@.subrange(first_dot + 1, n as int);
            assert(after_field(t) == Some(r1)) by {
                assert(t.skip(first_dot + 1) =~= r1);
            }
            let second_dot = scan_forward(chars, first_dot + 1, n, CharClass::Not('.'));
            assert(date_field(r1) =~= chars@.subrange(first_dot + 1, second_dot as int));
            month = match parse_int_range(chars, first_dot + 1, second_dot, 1, 12) {
                Some(v) => v,
                None => {
                    return None;
                },
            };
            if second_dot < n {
                let ghost r2 = chars@.subrange(second_dot + 1, n as int);
                assert(after_field(r1) == Some(r2)) by {
                    assert(r1.skip(second_dot - (first_dot + 1) + 1) =~= r2);
                }
                let third_dot = scan_forward(chars, second_dot + 1, n, CharClass::Not('.'));
                assert(date_field(r2) =~= chars@.subrange(second_dot + 1, third_dot as int));
                if third_dot < n {
                    return None;
                }
                day = match parse_int_range(chars, second_dot + 1, third_dot, 1, 31) {
                    Some(v) => v,
                    None => {
                        return None;
                    },
                };
            }
        }
        Some(Date { year: year as i16, month: month as i8, day: day as i8 })
    }
}

} // verus!
