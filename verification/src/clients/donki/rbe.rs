//! DONKI Radiation Belt Enhancement (RBE) endpoint.

use crate::kernel::{Params, SubClient};
use crate::prelude::DefaultParams;
use crate::text::{count_char, count_char_from};
use vstd::prelude::*;

verus! {

/// Params for the RBE API
pub type RBEParams = DefaultParams;

/// RBE API client
#[derive(Clone, Debug)]
pub struct RBE {}

impl Default for RBE {
    fn default() -> (r: Self)
        ensures
            r == (RBE {  }),
    {
        RBE {  }
    }
}

impl RBE {
    /// Create a new `RBE` client
    pub fn new() -> (r: Self)
        ensures
            r == (RBE {  }),
    {
        RBE {  }
    }
}

impl<P: Params> SubClient<P> for RBE {
    open spec fn spec_base_url() -> Seq<char> {
        "https://api.nasa.gov/DONKI/RBE"@
    }

    fn base_url() -> (r: String) {
        String::from_str("https://api.nasa.gov/DONKI/RBE")
    }

    proof fn base_url_wf() {
        let b = "https://api.nasa.gov/DONKI/RBE"@;
        reveal_strlit("https://api.nasa.gov/DONKI/RBE");
        reveal_with_fuel(count_char_from, 32);
        assert(count_char(b, '?') == 0);
        assert(count_char(b, '=') == 0);
    }
}

} // verus!
