//! Look up a specific asteroid by its JPL small-body (SPK-ID) ID.

use crate::kernel::{lemma_fragment_valid_by_chars, Params, SubClient};
use crate::text::{count_char, count_char_from};
use vstd::prelude::*;

verus! {

/// Params for the Neo <lookup> API
#[derive(Debug)]
pub enum NeoLookupParams {
    /// Asteroid SPK-ID, as the JPL small-body database names it
    AsteroidID(String),
}

impl Params for NeoLookupParams {
    open spec fn spec_render(&self) -> Seq<char> {
        match self {
            NeoLookupParams::AsteroidID(d) => "asteroid_id="@ + d@,
        }
    }

    open spec fn spec_default_render() -> Seq<char> {
        "asteroid_id=2021277"@
    }

    fn render(&self) -> (r: String) {
        match self {
            NeoLookupParams::AsteroidID(d) => {
                let mut s = String::from_str("asteroid_id=");
                s.append(d.as_str());
                s
            },
        }
    }

    fn default_value() -> (r: Self) {
        let r = NeoLookupParams::AsteroidID(String::from_str("2021277"));
        proof {
            reveal_strlit("asteroid_id=");
            reveal_strlit("2021277");
            reveal_strlit("asteroid_id=2021277");
            assert(r.spec_render() =~= Self::spec_default_render());
        }
        r
    }

    proof fn default_render_wf() {
        let f = "asteroid_id=2021277"@;
        reveal_strlit("asteroid_id=2021277");
        reveal_with_fuel(count_char_from, 21);
        assert(count_char(f, '?') == 0);
        assert(count_char(f, 'k') == 0);
        lemma_fragment_valid_by_chars(f);
    }
}

impl Default for NeoLookupParams {
    fn default() -> (r: Self)
        ensures
            r.spec_render() == Self::spec_default_render(),
    {
        NeoLookupParams::default_value()
    }
}

/// Neo <lookup> client
#[derive(Clone, Debug)]
pub struct NeoLookup {}

impl Default for NeoLookup {
    fn default() -> (r: Self)
        ensures
            r == (NeoLookup {  }),
    {
        NeoLookup {  }
    }
}

impl NeoLookup {
    /// Create a new `NeoLookup` client
    pub fn new() -> (r: Self)
        ensures
            r == (NeoLookup {  }),
    {
        NeoLookup {  }
    }
}

impl<P: Params> SubClient<P> for NeoLookup {
    open spec fn spec_base_url() -> Seq<char> {
        "https://api.nasa.gov/neo/rest/v1/neo"@
    }

    fn base_url() -> (r: String) {
        String::from_str("https://api.nasa.gov/neo/rest/v1/neo")
    }

    proof fn base_url_wf() {
        let b = "https://api.nasa.gov/neo/rest/v1/neo"@;
        reveal_strlit("https://api.nasa.gov/neo/rest/v1/neo");
        reveal_with_fuel(count_char_from, 38);
        assert(count_char(b, '?') == 0);
        assert(count_char(b, '=') == 0);
    }
}

} // verus!
