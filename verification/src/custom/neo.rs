//! Query parameters of the Near Earth Objects endpoint.

use crate::client::{BaseBind, ClientBind, Interface};
use vstd::prelude::*;

verus! {

/// Query parameters for the NEO API.
#[derive(Debug)]
pub enum QueryParams {
    /// `start_date` fragment
    StartDate(String),
    /// `end_date` fragment
    EndDate(String),
    /// `api_key` fragment
    ApiKey(String),
}

/// The `Neo` endpoint.
pub struct Neo {}

impl Interface for Neo {
    type Params = QueryParams;

    open spec fn spec_query(&self, params: &QueryParams) -> Seq<char> {
        match params {
            QueryParams::StartDate(d) => "start_date="@ + d@,
            QueryParams::EndDate(d) => "end_date="@ + d@,
            QueryParams::ApiKey(d) => "api_key="@ + d@,
        }
    }

    fn start(base: BaseBind) -> (r: ClientBind) {
        ClientBind::new(base, None, None)
    }

    fn query(&self, params: QueryParams) -> (r: String) {
        match params {
            QueryParams::StartDate(d) => {
                let mut s = String::from_str("start_date=");
                s.append(d.as_str());
                s
            },
            QueryParams::EndDate(d) => {
                let mut s = String::from_str("end_date=");
                s.append(d.as_str());
                s
            },
            QueryParams::ApiKey(d) => {
                let mut s = String::from_str("api_key=");
                s.append(d.as_str());
                s
            },
        }
    }
}

} // verus!
