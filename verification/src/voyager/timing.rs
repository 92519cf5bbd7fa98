//! Date helpers for the toolkit; the one-month step here never wraps the
//! year: it only steps the month field down.

pub use crate::timing::{one_day, one_week, today, two_weeks};

use vstd::prelude::*;

verus! {

/// Returns the date one month back by plain subtraction on the month
/// field.
pub fn one_month() -> (r: String)
    ensures
        crate::timing::is_shifted_clock_date(r@, 1, 0),
{
    crate::timing::one_month_unwrapped()
}

} // verus!
