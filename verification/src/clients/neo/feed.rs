//! Retrieve a list of asteroids based on their closest approach date to Earth.

use crate::kernel::{lemma_fragment_valid_by_chars, Params, SubClient};
use crate::text::{count_char, count_char_from};
use vstd::prelude::*;

verus! {

/// Params for the Neo <feed> API
#[derive(Debug)]
pub enum NeoFeedParams {
    /// `start_date` interval bound
    StartDate(String),
    /// `end_date` interval bound
    EndDate(String),
}

impl Params for NeoFeedParams {
    open spec fn spec_render(&self) -> Seq<char> {
        match self {
            NeoFeedParams::StartDate(d) => "start_date="@ + d@,
            NeoFeedParams::EndDate(d) => "end_date="@ + d@,
        }
    }

    open spec fn spec_default_render() -> Seq<char> {
        "start_date=2023-01-01"@
    }

    fn render(&self) -> (r: String) {
        match self {
            NeoFeedParams::StartDate(d) => {
                let mut s = String::from_str("start_date=");
                s.append(d.as_str());
                s
            },
            NeoFeedParams::EndDate(d) => {
                let mut s = String::from_str("end_date=");
                s.append(d.as_str());
                s
            },
        }
    }

    fn default_value() -> (r: Self) {
        let r = NeoFeedParams::StartDate(String::from_str("2023-01-01"));
        proof {
            reveal_strlit("start_date=");
            reveal_strlit("2023-01-01");
            reveal_strlit("start_date=2023-01-01");
            assert(r.spec_render() =~= Self::spec_default_render());
        }
        r
    }

    proof fn default_render_wf() {
        let f = "start_date=2023-01-01"@;
        reveal_strlit("start_date=2023-01-01");
        reveal_with_fuel(count_char_from, 23);
        assert(count_char(f, '?') == 0);
        assert(count_char(f, 'k') == 0);
        lemma_fragment_valid_by_chars(f);
    }
}

impl Default for NeoFeedParams {
    fn default() -> (r: Self)
        ensures
            r.spec_render() == Self::spec_default_render(),
    {
        NeoFeedParams::default_value()
    }
}

/// Neo <feed> client
#[derive(Clone, Debug)]
pub struct NeoFeed {}

impl Default for NeoFeed {
    fn default() -> (r: Self)
        ensures
            r == (NeoFeed {  }),
    {
        NeoFeed {  }
    }
}

impl NeoFeed {
    /// Create a new `NeoFeed` client
    pub fn new() -> (r: Self)
        ensures
            r == (NeoFeed {  }),
    {
        NeoFeed {  }
    }
}

impl<P: Params> SubClient<P> for NeoFeed {
    open spec fn spec_base_url() -> Seq<char> {
        "https://api.nasa.gov/neo/rest/v1/feed"@
    }

    fn base_url() -> (r: String) {
        String::from_str("https://api.nasa.gov/neo/rest/v1/feed")
    }

    proof fn base_url_wf() {
        let b = "https://api.nasa.gov/neo/rest/v1/feed"@;
        reveal_strlit("https://api.nasa.gov/neo/rest/v1/feed");
        reveal_with_fuel(count_char_from, 39);
        assert(count_char(b, '?') == 0);
        assert(count_char(b, '=') == 0);
    }
}

} // verus!
