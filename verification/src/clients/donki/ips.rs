//! DONKI Interplanetary Shock (IPS) endpoint.

use crate::kernel::{Params, SubClient};
use crate::prelude::DefaultParams;
use crate::text::{count_char, count_char_from};
use vstd::prelude::*;

verus! {

/// Params for the IPS API
pub type IPSParams = DefaultParams;

/// IPS API client
#[derive(Clone, Debug)]
pub struct IPS {}

impl Default for IPS {
    fn default() -> (r: Self)
        ensures
            r == (IPS {  }),
    {
        IPS {  }
    }
}

impl IPS {
    /// Create a new `IPS` client
    pub fn new() -> (r: Self)
        ensures
            r == (IPS {  }),
    {
        IPS {  }
    }
}

impl<P: Params> SubClient<P> for IPS {
    open spec fn spec_base_url() -> Seq<char> {
        "https://api.nasa.gov/DONKI/IPS"@
    }

    fn base_url() -> (r: String) {
        String::from_str("https://api.nasa.gov/DONKI/IPS")
    }

    proof fn base_url_wf() {
        let b = "https://api.nasa.gov/DONKI/IPS"@;
        reveal_strlit("https://api.nasa.gov/DONKI/IPS");
        reveal_with_fuel(count_char_from, 32);
        assert(count_char(b, '?') == 0);
        assert(count_char(b, '=') == 0);
    }
}

} // verus!
