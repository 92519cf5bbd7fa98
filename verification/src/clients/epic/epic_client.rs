//! The EPIC client, whose URL structure differs from the other endpoints.

use super::epic_parameters::EPICParams;
use crate::kernel::{Params, SubClient};
use crate::text::{count_char, count_char_from};
use vstd::prelude::*;

verus! {

/// EPIC API client
#[derive(Clone, Debug)]
pub struct EPIC {
    mode: EPICParams,
}

/// The URL that `EPIC::point` builds for a mode: the base URL followed by
/// the mode's path and a trailing `?`.
pub open spec fn spec_epic_point(mode: EPICParams) -> Seq<char> {
    "https://api.nasa.gov/EPIC/api"@ + match mode {
        EPICParams::NaturalAll => "/natural/all?"@,
        EPICParams::NaturalAvailable => "/natural?"@,
        EPICParams::NaturalDate(d) => "/natural/date/"@ + d@ + "?"@,
        _ => "/natural/all?"@,
    }
}

impl Default for EPIC {
    fn default() -> (r: Self)
        ensures
            r.spec_mode() is NaturalAll,
    {
        EPIC { mode: EPICParams::NaturalAll }
    }
}

impl EPIC {
    /// The collection mode this client lists.
    pub closed spec fn spec_mode(&self) -> EPICParams {
        self.mode
    }

    /// A client listing the natural-color collection.
    pub fn new() -> (r: Self)
        ensures
            r.spec_mode() is NaturalAll,
    {
        EPIC { mode: EPICParams::NaturalAll }
    }

    /// The collection mode this client lists.
    pub fn mode(&self) -> (r: &EPICParams)
        ensures
            *r == self.spec_mode(),
    {
        &self.mode
    }

    /// EPIC has a different URL structure than the other APIs: the mode is
    /// a path segment, not a query fragment.
    pub fn point<P: Params>(&self, _params: P) -> (r: String)
        ensures
            r@ == spec_epic_point(self.spec_mode()),
    {
        let mut url = String::from_str("https://api.nasa.gov/EPIC/api");
        match &self.mode {
            EPICParams::NaturalAll => {
                url.append("/natural/all?");
            },
            EPICParams::NaturalAvailable => {
                url.append("/natural?");
            },
            EPICParams::NaturalDate(date) => {
                url.append("/natural/date/");
                url.append(date.as_str());
                url.append("?");
            },
            _ => {
                url.append("/natural/all?");
            },
        }
        proof {
            assert(url@ =~= spec_epic_point(self.spec_mode()));
        }
        url
    }
}

impl<P: Params> SubClient<P> for EPIC {
    open spec fn spec_base_url() -> Seq<char> {
        "https://api.nasa.gov/EPIC/api"@
    }

    fn base_url() -> (r: String) {
        String::from_str("https://api.nasa.gov/EPIC/api")
    }

    proof fn base_url_wf() {
        let b = "https://api.nasa.gov/EPIC/api"@;
        reveal_strlit("https://api.nasa.gov/EPIC/api");
        reveal_with_fuel(count_char_from, 31);
        assert(count_char(b, '?') == 0);
        assert(count_char(b, '=') == 0);
    }
}

} // verus!
