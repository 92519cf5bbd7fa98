//! DONKI Geomagnetic Storm (GST) endpoint.

use crate::kernel::{lemma_fragment_valid_by_chars, Params, SubClient};
use crate::text::{count_char, count_char_from};
use vstd::prelude::*;

verus! {

/// Params for the GST API
#[derive(Debug)]
pub enum GSTParams {
    /// Start date of the interval
    StartDate(String),
    /// End date of the interval
    EndDate(String),
    /// No constraint: query with no parameters
    Empty,
}

impl Params for GSTParams {
    open spec fn spec_render(&self) -> Seq<char> {
        match self {
            GSTParams::StartDate(d) => "startDate="@ + d@,
            GSTParams::EndDate(d) => "endDate="@ + d@,
            GSTParams::Empty => ""@,
        }
    }

    open spec fn spec_default_render() -> Seq<char> {
        ""@
    }

    fn render(&self) -> (r: String) {
        match self {
            GSTParams::StartDate(d) => {
                let mut s = String::from_str("startDate=");
                s.append(d.as_str());
                s
            },
            GSTParams::EndDate(d) => {
                let mut s = String::from_str("endDate=");
                s.append(d.as_str());
                s
            },
            GSTParams::Empty => {
                let s = String::new();
                proof {
                    reveal_strlit("");
                    assert(s@ =~= ""@);
                }
                s
            },
        }
    }

    fn default_value() -> (r: Self) {
        proof {
            reveal_strlit("");
        }
        GSTParams::Empty
    }

    proof fn default_render_wf() {
        let f = ""@;
        reveal_strlit("");
        reveal_with_fuel(count_char_from, 2);
        assert(count_char(f, '?') == 0);
        assert(count_char(f, 'k') == 0);
        lemma_fragment_valid_by_chars(f);
    }
}

impl Default for GSTParams {
    fn default() -> (r: Self)
        ensures
            r.spec_render() == Self::spec_default_render(),
    {
        GSTParams::default_value()
    }
}

/// GST API client
#[derive(Clone, Debug)]
pub struct GST {}

impl Default for GST {
    fn default() -> (r: Self)
        ensures
            r == (GST {  }),
    {
        GST {  }
    }
}

impl GST {
    /// Create a new `GST` client
    pub fn new() -> (r: Self)
        ensures
            r == (GST {  }),
    {
        GST {  }
    }
}

impl<P: Params> SubClient<P> for GST {
    open spec fn spec_base_url() -> Seq<char> {
        "https://api.nasa.gov/DONKI/GST"@
    }

    fn base_url() -> (r: String) {
        String::from_str("https://api.nasa.gov/DONKI/GST")
    }

    proof fn base_url_wf() {
        let b = "https://api.nasa.gov/DONKI/GST"@;
        reveal_strlit("https://api.nasa.gov/DONKI/GST");
        reveal_with_fuel(count_char_from, 32);
        assert(count_char(b, '?') == 0);
        assert(count_char(b, '=') == 0);
    }
}

} // verus!
