//! Re-exports of the core types and the parameter set shared by the DONKI
//! family of endpoints.

pub use crate::kernel::{Params, SubClient};

pub use crate::clients::apod::ApodParams as ApodPara;
pub use crate::clients::donki::cme::CMEParams as CmePara;
pub use crate::clients::donki::flr::FLRParams as FlrPara;
pub use crate::clients::donki::gst::GSTParams as GstPara;
pub use crate::clients::donki::hss::HSSParams as HssPara;
pub use crate::clients::donki::ips::IPSParams as IpsPara;
pub use crate::clients::donki::mpc::MPCParams as MpcPara;
pub use crate::clients::donki::rbe::RBEParams as RbePara;
pub use crate::clients::donki::sep::SEPParams as SepPara;
pub use crate::clients::earth::EarthParams as EarthPara;
pub use crate::clients::neo::feed::NeoFeedParams as NeoFPara;
pub use crate::clients::neo::lookup::NeoLookupParams as NeoLPara;
pub use crate::kernel::{Client, NervaClient as Nerva};

use crate::kernel::lemma_fragment_valid_by_chars;
use crate::text::{count_char, count_char_from};
use vstd::prelude::*;

verus! {

/// Default parameters for any DONKI `SubClient`: a date interval.
#[derive(Debug)]
pub enum DefaultParams {
    /// Start date for the query
    StartDate(String),
    /// End date for the query
    EndDate(String),
}

impl Params for DefaultParams {
    open spec fn spec_render(&self) -> Seq<char> {
        match self {
            DefaultParams::StartDate(d) => "startDate="@ + d@,
            DefaultParams::EndDate(d) => "endDate="@ + d@,
        }
    }

    open spec fn spec_default_render() -> Seq<char> {
        "startDate=2022-01-01"@
    }

    fn render(&self) -> (r: String) {
        match self {
            DefaultParams::StartDate(d) => {
                let mut s = String::from_str("startDate=");
                s.append(d.as_str());
                s
            },
            DefaultParams::EndDate(d) => {
                let mut s = String::from_str("endDate=");
                s.append(d.as_str());
                s
            },
        }
    }

    fn default_value() -> (r: Self) {
        let r = DefaultParams::StartDate(String::from_str("2022-01-01"));
        proof {
            reveal_strlit("startDate=");
            reveal_strlit("2022-01-01");
            reveal_strlit("startDate=2022-01-01");
            assert(r.spec_render() =~= Self::spec_default_render());
        }
        r
    }

    proof fn default_render_wf() {
        let f = "startDate=2022-01-01"@;
        reveal_strlit("startDate=2022-01-01");
        reveal_with_fuel(count_char_from, 22);
        assert(count_char(f, '?') == 0);
        assert(count_char(f, 'k') == 0);
        lemma_fragment_valid_by_chars(f);
    }
}

impl Default for DefaultParams {
    fn default() -> (r: Self)
        ensures
            r.spec_render() == Self::spec_default_render(),
    {
        DefaultParams::default_value()
    }
}

} // verus!
