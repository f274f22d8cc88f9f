//! Calendar dates derived from modification timestamps.
//!
//! A timestamp is interpreted as non-leap seconds since the Unix epoch and
//! converted to a UTC calendar date. The conversion itself is done by the
//! `chrono` crate behind a trusted wrapper; everything downstream of the
//! returned year, month and day — range policy and `YYYY-MM-DD` formatting —
//! is verified. Dates outside the years 0 through 9999 are treated as
//! unrepresentable, so a formatted date is always exactly ten characters.

use vstd::prelude::*;

verus! {

/// The UTC calendar date (year, month, day) that `chrono` derives from a
/// timestamp of non-leap seconds since the Unix epoch, or `None` when the
/// timestamp lies outside chrono's representable range.
pub uninterp spec fn civil_of(secs: i64) -> Option<(i32, u32, u32)>;

/// Relies on `chrono::DateTime::<Utc>::from_timestamp` and the `Datelike`
/// accessors `year`, `month` and `day`: the timestamp is taken as non-leap
/// seconds since 1970-01-01T00:00:00 UTC and split into the UTC calendar
/// year, month (documented range 1 to 12) and day of month (documented
/// range 1 to 31). `from_timestamp` returns `None` only for timestamps
/// outside chrono's representable range, which extends many thousands of
/// years past the year 9999 in both directions, so every timestamp from the
/// epoch through 9999-12-31T23:59:59 yields a date in that span of years.
#[verifier::external_body]
pub(crate) fn epoch_to_civil(secs: i64) -> (r: Option<(i32, u32, u32)>)
    ensures
        r == civil_of(secs),
        r is Some ==> 1 <= r->Some_0.1 <= 12 && 1 <= r->Some_0.2 <= 31,
        0 <= secs <= 253_402_300_799 ==> r is Some && 1970 <= r->Some_0.0 <= 9999,
{
    match chrono::DateTime::<chrono::Utc>::from_timestamp(secs, 0) {
        Some(dt) => Some((
            chrono::Datelike::year(&dt),
            chrono::Datelike::month(&dt),
            chrono::Datelike::day(&dt),
        )),
        None => None,
    }
}

/// A calendar date the library can format: year 0 through 9999.
pub struct Date {
    pub year: u16,
    pub month: u8,
    pub day: u8,
}

impl Date {
    /// Field ranges every `Date` built from a timestamp satisfies.
    pub open spec fn wf(self) -> bool {
        self.year <= 9999 && 1 <= self.month <= 12 && 1 <= self.day <= 31
    }
}

/// The decimal digit character for `n` in 0 through 9.
pub open spec fn dec_digit(n: int) -> char {
    if n == 0 {
        '0'
    } else if n == 1 {
        '1'
    } else if n == 2 {
        '2'
    } else if n == 3 {
        '3'
    } else if n == 4 {
        '4'
    } else if n == 5 {
        '5'
    } else if n == 6 {
        '6'
    } else if n == 7 {
        '7'
    } else if n == 8 {
        '8'
    } else {
        '9'
    }
}

/// The ten characters `YYYY-MM-DD` for a date, zero-padded.
pub open spec fn date_chars(y: int, m: int, d: int) -> Seq<char> {
    seq![
        dec_digit(y / 1000 % 10),
        dec_digit(y / 100 % 10),
        dec_digit(y / 10 % 10),
        dec_digit(y % 10),
        '-',
        dec_digit(m / 10 % 10),
        dec_digit(m % 10),
        '-',
        dec_digit(d / 10 % 10),
        dec_digit(d % 10),
    ]
}

/// The one-character string for a decimal digit.
fn digit_str(n: u8) -> (r: &'static str)
    requires
        n <= 9,
    ensures
        r@ =~= seq![dec_digit(n as int)],
{
    if n == 0 {
        proof {
            reveal_strlit("0");
        }
        "0"
    } else if n == 1 {
        proof {
            reveal_strlit("1");
        }
        "1"
    } else if n == 2 {
        proof {
            reveal_strlit("2");
        }
        "2"
    } else if n == 3 {
        proof {
            reveal_strlit("3");
        }
        "3"
    } else if n == 4 {
        proof {
            reveal_strlit("4");
        }
        "4"
    } else if n == 5 {
        proof {
            reveal_strlit("5");
        }
        "5"
    } else if n == 6 {
        proof {
            reveal_strlit("6");
        }
        "6"
    } else if n == 7 {
        proof {
            reveal_strlit("7");
        }
        "7"
    } else if n == 8 {
        proof {
            reveal_strlit("8");
        }
        "8"
    } else {
        proof {
            reveal_strlit("9");
        }
        "9"
    }
}

impl Date {
    /// Formats the date as zero-padded `YYYY-MM-DD`.
    pub fn format(&self) -> (r: String)
        requires
            self.wf(),
        ensures
            r@ == date_chars(self.year as int, self.month as int, self.day as int),
            r@.len() == 10,
    {
        proof {
            reveal_strlit("-");
        }
        let mut s = String::new();
        s.append(digit_str((self.year / 1000) as u8));
        s.append(digit_str((self.year / 100 % 10) as u8));
        s.append(digit_str((self.year / 10 % 10) as u8));
        s.append(digit_str((self.year % 10) as u8));
        s.append("-");
        s.append(digit_str(self.month / 10));
        s.append(digit_str(self.month % 10));
        s.append("-");
        s.append(digit_str(self.day / 10));
        s.append(digit_str(self.day % 10));
        proof {
            assert(s@ =~= date_chars(self.year as int, self.month as int, self.day as int));
        }
        s
    }
}

/// Converts a timestamp of seconds since the Unix epoch to a UTC calendar
/// date. Returns `None` exactly when chrono cannot represent the timestamp
/// or the resulting year falls outside 0 through 9999; every timestamp from
/// the epoch through the end of the year 9999 yields a date.
pub fn date_from_epoch(secs: i64) -> (r: Option<Date>)
    ensures
        match civil_of(secs) {
            Some(t) => {
                if 0 <= t.0 <= 9999 {
                    r is Some && r->0.wf() && r->0.year as int == t.0 as int && r->0.month
                        as int == t.1 as int && r->0.day as int == t.2 as int
                } else {
                    r is None
                }
            },
            None => r is None,
        },
        0 <= secs <= 253_402_300_799 ==> r is Some,
{
    match epoch_to_civil(secs) {
        Some((y, m, d)) => {
            if 0 <= y && y <= 9999 {
                Some(Date { year: y as u16, month: m as u8, day: d as u8 })
            } else {
                None
            }
        },
        None => None,
    }
}

} // verus!
