//! Query parameters of the Picture of the Day endpoint.

use crate::client::{BaseBind, ClientBind, Interface};
use vstd::prelude::*;

verus! {

/// Query parameters for the APOD API.
#[derive(Debug)]
pub enum QueryParams {
    /// `date` fragment
    Date(String),
    /// `start_date` fragment
    StartDate(String),
    /// `end_date` fragment
    EndDate(String),
    /// `count` fragment
    Count(String),
    /// `thumbs` fragment
    Thumbs(bool),
    /// `api_key` fragment
    Key(String),
}

/// The `Apod` endpoint.
pub struct Apod {}

impl Interface for Apod {
    type Params = QueryParams;

    open spec fn spec_query(&self, params: &QueryParams) -> Seq<char> {
        match params {
            QueryParams::Date(d) => "date="@ + d@,
            QueryParams::StartDate(d) => "start_date="@ + d@,
            QueryParams::EndDate(d) => "end_date="@ + d@,
            QueryParams::Count(d) => "count="@ + d@,
            QueryParams::Thumbs(b) => "thumbs="@ + (if *b { "true"@ } else { "false"@ }),
            QueryParams::Key(d) => "api_key="@ + d@,
        }
    }

    fn start(base: BaseBind) -> (r: ClientBind) {
        ClientBind::new(base, None, None)
    }

    fn query(&self, params: QueryParams) -> (r: String) {
        match params {
            QueryParams::Date(d) => {
                let mut s = String::from_str("date=");
                s.append(d.as_str());
                s
            },
            QueryParams::StartDate(d) => {
                let mut s = String::from_str("start_date=");
                s.append(d.as_str());
                s
            },
            QueryParams::EndDate(d) => {
                let mut s = String::from_str("end_date=");
                s.append(d.as_str());
                s
            },
            QueryParams::Count(d) => {
                let mut s = String::from_str("count=");
                s.append(d.as_str());
                s
            },
            QueryParams::Thumbs(b) => {
                let mut s = String::from_str("thumbs=");
                s.append(crate::text::bool_to_str(b));
                s
            },
            QueryParams::Key(d) => {
                let mut s = String::from_str("api_key=");
                s.append(d.as_str());
                s
            },
        }
    }
}

} // verus!
