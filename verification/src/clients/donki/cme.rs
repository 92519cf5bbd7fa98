//! DONKI Coronal Mass Ejection (CME) endpoint.

use crate::kernel::{Params, SubClient};
use crate::prelude::DefaultParams;
use crate::text::{count_char, count_char_from};
use vstd::prelude::*;

verus! {

/// Params for the CME API
pub type CMEParams = DefaultParams;

/// CME API client
#[derive(Clone, Debug)]
pub struct CME {}

impl Default for CME {
    fn default() -> (r: Self)
        ensures
            r == (CME {  }),
    {
        CME {  }
    }
}

impl CME {
    /// Create a new `CME` client
    pub fn new() -> (r: Self)
        ensures
            r == (CME {  }),
    {
        CME {  }
    }
}

impl<P: Params> SubClient<P> for CME {
    open spec fn spec_base_url() -> Seq<char> {
        "https://api.nasa.gov/DONKI/CME"@
    }

    fn base_url() -> (r: String) {
        String::from_str("https://api.nasa.gov/DONKI/CME")
    }

    proof fn base_url_wf() {
        let b = "https://api.nasa.gov/DONKI/CME"@;
        reveal_strlit("https://api.nasa.gov/DONKI/CME");
        reveal_with_fuel(count_char_from, 32);
        assert(count_char(b, '?') == 0);
        assert(count_char(b, '=') == 0);
    }
}

} // verus!
