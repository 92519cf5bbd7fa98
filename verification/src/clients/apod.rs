//! The Picture of the Day endpoint.

use crate::kernel::{lemma_fragment_valid_by_chars, Params, SubClient};
use crate::text::{count_char, count_char_from, spec_digits, u64_to_string};
use vstd::prelude::*;

verus! {

/// Params for the APOD API
#[derive(Debug)]
pub enum ApodParams {
    /// Date of the APOD image
    Date(String),
    /// Start date of the interval
    StartDate(String),
    /// End date of the interval
    EndDate(String),
    /// Number of images to return
    Count(usize),
    /// Include thumbnail images in the response
    Thumbs(bool),
}

impl Params for ApodParams {
    open spec fn spec_render(&self) -> Seq<char> {
        match self {
            ApodParams::Date(d) => "date="@ + d@,
            ApodParams::StartDate(d) => "start_date="@ + d@,
            ApodParams::EndDate(d) => "end_date="@ + d@,
            ApodParams::Count(c) => "count="@ + spec_digits(*c as nat),
            ApodParams::Thumbs(t) => "thumbs="@ + (if *t {
                "true"@
            } else {
                "false"@
            }),
        }
    }

    open spec fn spec_default_render() -> Seq<char> {
        "date=2020-01-01"@
    }

    fn render(&self) -> (r: String) {
        match self {
            ApodParams::Date(d) => {
                let mut s = String::from_str("date=");
                s.append(d.as_str());
                s
            },
            ApodParams::StartDate(d) => {
                let mut s = String::from_str("start_date=");
                s.append(d.as_str());
                s
            },
            ApodParams::EndDate(d) => {
                let mut s = String::from_str("end_date=");
                s.append(d.as_str());
                s
            },
            ApodParams::Count(c) => {
                let mut s = String::from_str("count=");
                s.append(u64_to_string(*c as u64).as_str());
                s
            },
            ApodParams::Thumbs(t) => {
                let mut s = String::from_str("thumbs=");
                s.append(crate::text::bool_to_str(*t));
                s
            },
        }
    }

    fn default_value() -> (r: Self) {
        let r = ApodParams::Date(String::from_str("2020-01-01"));
        proof {
            reveal_strlit("date=");
            reveal_strlit("2020-01-01");
            reveal_strlit("date=2020-01-01");
            assert(r.spec_render() =~= Self::spec_default_render());
        }
        r
    }

    proof fn default_render_wf() {
        reveal_strlit("date=2020-01-01");
        reveal_with_fuel(count_char_from, 17);
        assert(count_char(Self::spec_default_render(), '?') == 0);
        assert(count_char(Self::spec_default_render(), 'k') == 0);
        lemma_fragment_valid_by_chars(Self::spec_default_render());
    }
}

impl Default for ApodParams {
    /// Default parameters for the APOD API.
    fn default() -> (r: Self)
        ensures
            r.spec_render() == Self::spec_default_render(),
    {
        ApodParams::default_value()
    }
}

/// APOD API client
#[derive(Clone, Debug)]
pub struct Apod {}

impl Default for Apod {
    fn default() -> (r: Self)
        ensures
            r == (Apod {  }),
    {
        Apod {  }
    }
}

impl<P: Params> SubClient<P> for Apod {
    open spec fn spec_base_url() -> Seq<char> {
        "https://api.nasa.gov/planetary/apod"@
    }

    fn base_url() -> (r: String) {
        String::from_str("https://api.nasa.gov/planetary/apod")
    }

    proof fn base_url_wf() {
        let b = "https://api.nasa.gov/planetary/apod"@;
        reveal_strlit("https://api.nasa.gov/planetary/apod");
        reveal_with_fuel(count_char_from, 37);
        assert(count_char(b, '?') == 0);
        assert(count_char(b, '=') == 0);
    }
}

} // verus!
