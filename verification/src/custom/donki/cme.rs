//! Query parameters of the Coronal Mass Ejection endpoint.

use crate::client::{BaseBind, ClientBind, Interface};
use vstd::prelude::*;

verus! {

/// Query parameters for the CME API.
#[derive(Debug)]
pub enum QueryParams {
    /// `startDate` fragment
    StartDate(String),
    /// `endDate` fragment
    EndDate(String),
    /// `mostAccurateOnly` fragment
    MostAccurateOnly(bool),
    /// `completeEntryOnly` fragment
    CompleteEntryOnly(bool),
    /// `speed` fragment
    Speed(u64),
    /// `halfAngle` fragment
    HalfAngle(u64),
    /// `catalog` fragment
    Catalog(String),
    /// `keyword` fragment
    Keyword(String),
}

/// The `Cme` endpoint.
pub struct Cme {}

impl Interface for Cme {
    type Params = QueryParams;

    open spec fn spec_query(&self, params: &QueryParams) -> Seq<char> {
        match params {
            QueryParams::StartDate(d) => "startDate="@ + d@,
            QueryParams::EndDate(d) => "endDate="@ + d@,
            QueryParams::MostAccurateOnly(b) => "mostAccurateOnly="@ + (if *b { "true"@ } else { "false"@ }),
            QueryParams::CompleteEntryOnly(b) => "completeEntryOnly="@ + (if *b { "true"@ } else { "false"@ }),
            QueryParams::Speed(n) => "speed="@ + crate::text::spec_digits(*n as nat),
            QueryParams::HalfAngle(n) => "halfAngle="@ + crate::text::spec_digits(*n as nat),
            QueryParams::Catalog(d) => "catalog="@ + d@,
            QueryParams::Keyword(d) => "keyword="@ + d@,
        }
    }

    fn start(base: BaseBind) -> (r: ClientBind) {
        ClientBind::new(base, None, None)
    }

    fn query(&self, params: QueryParams) -> (r: String) {
        match params {
            QueryParams::StartDate(d) => {
                let mut s = String::from_str("startDate=");
                s.append(d.as_str());
                s
            },
            QueryParams::EndDate(d) => {
                let mut s = String::from_str("endDate=");
                s.append(d.as_str());
                s
            },
            QueryParams::MostAccurateOnly(b) => {
                let mut s = String::from_str("mostAccurateOnly=");
                s.append(crate::text::bool_to_str(b));
                s
            },
            QueryParams::CompleteEntryOnly(b) => {
                let mut s = String::from_str("completeEntryOnly=");
                s.append(crate::text::bool_to_str(b));
                s
            },
            QueryParams::Speed(n) => {
                let mut s = String::from_str("speed=");
                s.append(crate::text::u64_to_string(n as u64).as_str());
                s
            },
            QueryParams::HalfAngle(n) => {
                let mut s = String::from_str("halfAngle=");
                s.append(crate::text::u64_to_string(n as u64).as_str());
                s
            },
            QueryParams::Catalog(d) => {
                let mut s = String::from_str("catalog=");
                s.append(d.as_str());
                s
            },
            QueryParams::Keyword(d) => {
                let mut s = String::from_str("keyword=");
                s.append(d.as_str());
                s
            },
        }
    }
}

} // verus!
