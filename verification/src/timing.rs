//! Date helpers for building query intervals, rendered as `Y-M-D` text.
//!
//! The clock is read once per call; the arithmetic on the day and month
//! fields is plain field arithmetic, exactly as rendered.

use chrono::Datelike;
use vstd::prelude::*;

verus! {

/// The current local calendar date as (year, month, day).
///
/// Relies on chrono::Local::now and chrono::Datelike: month lies in 1..=12
/// and day in 1..=31; the values depend on the clock.
#[verifier::external_body]
fn local_now_ymd() -> (r: (i32, u32, u32))
    ensures
        1 <= r.1 <= 12,
        1 <= r.2 <= 31,
{
    let now = chrono::Local::now();
    (now.year(), now.month(), now.day())
}

/// The text `y-m-d`, each field in decimal.
pub open spec fn spec_ymd(y: int, m: int, d: int) -> Seq<char> {
    crate::text::spec_int_digits(y) + "-"@ + crate::text::spec_int_digits(m) + "-"@
        + crate::text::spec_int_digits(d)
}

/// A date the clock could have produced, shifted by `months` and `days`
/// by plain field arithmetic.
pub open spec fn is_shifted_clock_date(r: Seq<char>, months: int, days: int) -> bool {
    exists|y: int, m: int, d: int|
        1 <= m <= 12 && 1 <= d <= 31 && r == #[trigger] spec_ymd(y, m - months, d - days)
}

/// Renders `y-m-d` in decimal.
fn format_ymd(y: i64, m: i64, d: i64) -> (r: String)
    requires
        y > i64::MIN,
        m > i64::MIN,
        d > i64::MIN,
    ensures
        r@ == spec_ymd(y as int, m as int, d as int),
{
    let mut s = crate::text::i64_to_string(y);
    s.append("-");
    s.append(crate::text::i64_to_string(m).as_str());
    s.append("-");
    s.append(crate::text::i64_to_string(d).as_str());
    proof {
        reveal_strlit("-");
        assert("-"@ =~= seq!['-']);
        assert(s@ =~= spec_ymd(y as int, m as int, d as int));
    }
    s
}

/// Returns the current date in Y-M-D format as a String.
pub fn today() -> (r: String)
    ensures
        is_shifted_clock_date(r@, 0, 0),
{
    let (y, m, d) = local_now_ymd();
    let r = format_ymd(y as i64, m as i64, d as i64);
    proof {
        assert(r@ == spec_ymd(y as int, (m as int) - (0), (d as int) - (0)));
    }
    r
}

/// Returns yesterday's date, by plain subtraction on the day field. Useful
/// for queries that return lots of data daily and only data from the last
/// 24h is needed.
pub fn one_day() -> (r: String)
    ensures
        is_shifted_clock_date(r@, 0, 1),
{
    let (y, m, d) = local_now_ymd();
    let r = format_ymd(y as i64, m as i64, d as i64 - 1);
    proof {
        assert(r@ == spec_ymd(y as int, (m as int) - (0), (d as int) - (1)));
    }
    r
}

/// Returns the date exactly one week before today's day number.
pub fn one_week() -> (r: String)
    ensures
        is_shifted_clock_date(r@, 0, 7),
{
    let (y, m, d) = local_now_ymd();
    let r = format_ymd(y as i64, m as i64, d as i64 - 7);
    proof {
        assert(r@ == spec_ymd(y as int, (m as int) - (0), (d as int) - (7)));
    }
    r
}

/// Returns the date exactly two weeks before today's day number.
pub fn two_weeks() -> (r: String)
    ensures
        is_shifted_clock_date(r@, 0, 14),
{
    let (y, m, d) = local_now_ymd();
    let r = format_ymd(y as i64, m as i64, d as i64 - 14);
    proof {
        assert(r@ == spec_ymd(y as int, (m as int) - (0), (d as int) - (14)));
    }
    r
}

/// Returns the date one month back by plain subtraction on the month
/// field, without wrapping a January start.
pub fn one_month_unwrapped() -> (r: String)
    ensures
        is_shifted_clock_date(r@, 1, 0),
{
    let (y, m, d) = local_now_ymd();
    let r = format_ymd(y as i64, m as i64 - 1, d as i64);
    proof {
        assert(r@ == spec_ymd(y as int, (m as int) - 1, (d as int) - 0));
    }
    r
}

/// Returns the date one month back, wrapping a January start to December
/// of the previous year.
pub fn one_month() -> (r: String)
    ensures
        is_shifted_clock_date(r@, 1, 0) || is_shifted_clock_date(r@, -11, 0),
{
    let (y, m, d) = local_now_ymd();
    if m == 1 {
        let r = format_ymd(y as i64 - 1, 12, d as i64);
        proof {
            assert(r@ == spec_ymd(y as int - 1, 1 - (-11), (d as int) - 0));
        }
        r
    } else {
        let r = format_ymd(y as i64, m as i64 - 1, d as i64);
        proof {
            assert(r@ == spec_ymd(y as int, (m as int) - 1, (d as int) - 0));
        }
        r
    }
}

} // verus!
