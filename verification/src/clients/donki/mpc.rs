//! DONKI Magnetopause Crossing (MPC) endpoint.

use crate::kernel::{Params, SubClient};
use crate::prelude::DefaultParams;
use crate::text::{count_char, count_char_from};
use vstd::prelude::*;

verus! {

/// Params for the MPC API
pub type MPCParams = DefaultParams;

/// MPC API client
#[derive(Clone, Debug)]
pub struct MPC {}

impl Default for MPC {
    fn default() -> (r: Self)
        ensures
            r == (MPC {  }),
    {
        MPC {  }
    }
}

impl MPC {
    /// Create a new `MPC` client
    pub fn new() -> (r: Self)
        ensures
            r == (MPC {  }),
    {
        MPC {  }
    }
}

impl<P: Params> SubClient<P> for MPC {
    open spec fn spec_base_url() -> Seq<char> {
        "https://api.nasa.gov/DONKI/MPC"@
    }

    fn base_url() -> (r: String) {
        String::from_str("https://api.nasa.gov/DONKI/MPC")
    }

    proof fn base_url_wf() {
        let b = "https://api.nasa.gov/DONKI/MPC"@;
        reveal_strlit("https://api.nasa.gov/DONKI/MPC");
        reveal_with_fuel(count_char_from, 32);
        assert(count_char(b, '?') == 0);
        assert(count_char(b, '=') == 0);
    }
}

} // verus!
