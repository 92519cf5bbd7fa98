//! Parameters of the EPIC endpoint: which imagery collection to list.

use crate::kernel::{lemma_fragment_valid_by_chars, Params};
use crate::text::{count_char, count_char_from};
use vstd::prelude::*;

verus! {

/// Params for the EPIC API
#[derive(Clone, Debug)]
pub enum EPICParams {
    /// Metadata on the most recent date of natural color imagery
    Natural(String),
    /// Metadata for natural color imagery available for a given date
    NaturalDate(String),
    /// A listing of all dates with available natural color imagery
    NaturalAll,
    /// Alternate listing of all dates with available color imagery
    NaturalAvailable,
    /// Metadata on the most recent date of enhanced color imagery
    Enhanced,
    /// Metadata for enhanced color imagery available for a given date
    EhancedDate(String),
    /// A listing of all dates with available enhanced color imagery
    EnhancedAll,
    /// Alternate listing of all dates with available enhanced color imagery
    EnhancedAvailable,
}

impl Params for EPICParams {
    open spec fn spec_render(&self) -> Seq<char> {
        match self {
            EPICParams::Natural(d) => "natural/date/"@ + d@,
            EPICParams::NaturalDate(d) => "natural/date/"@ + d@,
            EPICParams::NaturalAll => "natural/all"@,
            EPICParams::NaturalAvailable => "natural/available"@,
            EPICParams::Enhanced => "enhanced"@,
            EPICParams::EhancedDate(d) => "enhanced/date/"@ + d@,
            EPICParams::EnhancedAll => "enhanced/all"@,
            EPICParams::EnhancedAvailable => "enhanced/available"@,
        }
    }

    open spec fn spec_default_render() -> Seq<char> {
        "natural/all"@
    }

    fn render(&self) -> (r: String) {
        match self {
            EPICParams::Natural(d) => {
                let mut s = String::from_str("natural/date/");
                s.append(d.as_str());
                s
            },
            EPICParams::NaturalDate(d) => {
                let mut s = String::from_str("natural/date/");
                s.append(d.as_str());
                s
            },
            EPICParams::NaturalAll => String::from_str("natural/all"),
            EPICParams::NaturalAvailable => String::from_str("natural/available"),
            EPICParams::Enhanced => String::from_str("enhanced"),
            EPICParams::EhancedDate(d) => {
                let mut s = String::from_str("enhanced/date/");
                s.append(d.as_str());
                s
            },
            EPICParams::EnhancedAll => String::from_str("enhanced/all"),
            EPICParams::EnhancedAvailable => String::from_str("enhanced/available"),
        }
    }

    fn default_value() -> (r: Self) {
        EPICParams::NaturalAll
    }

    proof fn default_render_wf() {
        let f = "natural/all"@;
        reveal_strlit("natural/all");
        reveal_with_fuel(count_char_from, 13);
        assert(count_char(f, '?') == 0);
        assert(count_char(f, 'k') == 0);
        lemma_fragment_valid_by_chars(f);
    }
}

impl Default for EPICParams {
    fn default() -> (r: Self)
        ensures
            r.spec_render() == Self::spec_default_render(),
    {
        EPICParams::default_value()
    }
}

} // verus!
