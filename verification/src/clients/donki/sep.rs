//! DONKI Solar Energetic Particle (SEP) endpoint.

use crate::kernel::{Params, SubClient};
use crate::prelude::DefaultParams;
use crate::text::{count_char, count_char_from};
use vstd::prelude::*;

verus! {

/// Params for the SEP API
pub type SEPParams = DefaultParams;

/// SEP API client
#[derive(Clone, Debug)]
pub struct SEP {}

impl Default for SEP {
    fn default() -> (r: Self)
        ensures
            r == (SEP {  }),
    {
        SEP {  }
    }
}

impl SEP {
    /// Create a new `SEP` client
    pub fn new() -> (r: Self)
        ensures
            r == (SEP {  }),
    {
        SEP {  }
    }
}

impl<P: Params> SubClient<P> for SEP {
    open spec fn spec_base_url() -> Seq<char> {
        "https://api.nasa.gov/DONKI/SEP"@
    }

    fn base_url() -> (r: String) {
        String::from_str("https://api.nasa.gov/DONKI/SEP")
    }

    proof fn base_url_wf() {
        let b = "https://api.nasa.gov/DONKI/SEP"@;
        reveal_strlit("https://api.nasa.gov/DONKI/SEP");
        reveal_with_fuel(count_char_from, 32);
        assert(count_char(b, '?') == 0);
        assert(count_char(b, '=') == 0);
    }
}

} // verus!
