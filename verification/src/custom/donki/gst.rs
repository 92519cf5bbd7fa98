//! Query parameters of the Geomagnetic Storm endpoint.

use crate::client::{BaseBind, ClientBind, Interface};
use vstd::prelude::*;

verus! {

/// Query parameters for the GST API.
#[derive(Debug)]
pub enum QueryParams {
    /// `startDate` fragment
    StartDate(String),
    /// `endDate` fragment
    EndDate(String),
}

/// The `Gst` endpoint.
pub struct Gst {}

impl Interface for Gst {
    type Params = QueryParams;

    open spec fn spec_query(&self, params: &QueryParams) -> Seq<char> {
        match params {
            QueryParams::StartDate(d) => "startDate="@ + d@,
            QueryParams::EndDate(d) => "endDate="@ + d@,
        }
    }

    fn start(base: BaseBind) -> (r: ClientBind) {
        ClientBind::new(base, None, None)
    }

    fn query(&self, params: QueryParams) -> (r: String) {
        match params {
            QueryParams::StartDate(d) => {
                let mut s = String::from_str("startDate=");
                s.append(d.as_str());
                s
            },
            QueryParams::EndDate(d) => {
                let mut s = String::from_str("endDate=");
                s.append(d.as_str());
                s
            },
        }
    }
}

} // verus!
