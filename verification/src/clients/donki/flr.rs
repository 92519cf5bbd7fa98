//! DONKI Solar Flare (FLR) endpoint.

use crate::kernel::{Params, SubClient};
use crate::prelude::DefaultParams;
use crate::text::{count_char, count_char_from};
use vstd::prelude::*;

verus! {

/// Params for the FLR API
pub type FLRParams = DefaultParams;

/// FLR API client
#[derive(Clone, Debug)]
pub struct FLR {}

impl Default for FLR {
    fn default() -> (r: Self)
        ensures
            r == (FLR {  }),
    {
        FLR {  }
    }
}

impl FLR {
    /// Create a new `FLR` client
    pub fn new() -> (r: Self)
        ensures
            r == (FLR {  }),
    {
        FLR {  }
    }
}

impl<P: Params> SubClient<P> for FLR {
    open spec fn spec_base_url() -> Seq<char> {
        "https://api.nasa.gov/DONKI/FLR"@
    }

    fn base_url() -> (r: String) {
        String::from_str("https://api.nasa.gov/DONKI/FLR")
    }

    proof fn base_url_wf() {
        let b = "https://api.nasa.gov/DONKI/FLR"@;
        reveal_strlit("https://api.nasa.gov/DONKI/FLR");
        reveal_with_fuel(count_char_from, 32);
        assert(count_char(b, '?') == 0);
        assert(count_char(b, '=') == 0);
    }
}

} // verus!
