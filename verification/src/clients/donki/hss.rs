//! DONKI High Speed Stream (HSS) endpoint.

use crate::kernel::{Params, SubClient};
use crate::prelude::DefaultParams;
use crate::text::{count_char, count_char_from};
use vstd::prelude::*;

verus! {

/// Params for the HSS API
pub type HSSParams = DefaultParams;

/// HSS API client
#[derive(Clone, Debug)]
pub struct HSS {}

impl Default for HSS {
    fn default() -> (r: Self)
        ensures
            r == (HSS {  }),
    {
        HSS {  }
    }
}

impl HSS {
    /// Create a new `HSS` client
    pub fn new() -> (r: Self)
        ensures
            r == (HSS {  }),
    {
        HSS {  }
    }
}

impl<P: Params> SubClient<P> for HSS {
    open spec fn spec_base_url() -> Seq<char> {
        "https://api.nasa.gov/DONKI/HSS"@
    }

    fn base_url() -> (r: String) {
        String::from_str("https://api.nasa.gov/DONKI/HSS")
    }

    proof fn base_url_wf() {
        let b = "https://api.nasa.gov/DONKI/HSS"@;
        reveal_strlit("https://api.nasa.gov/DONKI/HSS");
        reveal_with_fuel(count_char_from, 32);
        assert(count_char(b, '?') == 0);
        assert(count_char(b, '=') == 0);
    }
}

} // verus!
