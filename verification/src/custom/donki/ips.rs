//! Query parameters of the Interplanetary Shock endpoint.

use crate::client::{BaseBind, ClientBind, Interface};
use vstd::prelude::*;

verus! {

/// Query parameters for the IPS API.
#[derive(Debug)]
pub enum QueryParams {
    /// `startDate` fragment
    StartDate(String),
    /// `endDate` fragment
    EndDate(String),
    /// `location` fragment
    Location(String),
    /// `catalog` fragment
    Catalog(String),
}

/// The `Ips` endpoint.
pub struct Ips {}

impl Interface for Ips {
    type Params = QueryParams;

    open spec fn spec_query(&self, params: &QueryParams) -> Seq<char> {
        match params {
            QueryParams::StartDate(d) => "startDate="@ + d@,
            QueryParams::EndDate(d) => "endDate="@ + d@,
            QueryParams::Location(d) => "location="@ + d@,
            QueryParams::Catalog(d) => "catalog="@ + d@,
        }
    }

    fn start(base: BaseBind) -> (r: ClientBind) {
        ClientBind::new(base, None, None)
    }

    fn query(&self, params: QueryParams) -> (r: String) {
        match params {
            QueryParams::StartDate(d) => {
                let mut s = String::from_str("startDate=");
                s.append(d.as_str());
                s
            },
            QueryParams::EndDate(d) => {
                let mut s = String::from_str("endDate=");
                s.append(d.as_str());
                s
            },
            QueryParams::Location(d) => {
                let mut s = String::from_str("location=");
                s.append(d.as_str());
                s
            },
            QueryParams::Catalog(d) => {
                let mut s = String::from_str("catalog=");
                s.append(d.as_str());
                s
            },
        }
    }
}

} // verus!
