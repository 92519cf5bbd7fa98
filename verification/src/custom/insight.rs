//! Query parameters of the InSight Mars-weather endpoint.

use crate::client::{BaseBind, ClientBind, Interface};
use vstd::prelude::*;

verus! {

/// Query parameters for the InSight API.
#[derive(Debug)]
pub enum QueryParams {
    /// `version` fragment
    Version(String),
    /// `feedType` fragment
    FeedType(String),
    /// `key` fragment
    Key(String),
}

/// The `Insight` endpoint.
pub struct Insight {}

impl Interface for Insight {
    type Params = QueryParams;

    open spec fn spec_query(&self, params: &QueryParams) -> Seq<char> {
        match params {
            QueryParams::Version(d) => "version="@ + d@,
            QueryParams::FeedType(d) => "feedType="@ + d@,
            QueryParams::Key(d) => "key="@ + d@,
        }
    }

    fn start(base: BaseBind) -> (r: ClientBind) {
        ClientBind::new(base, None, None)
    }

    fn query(&self, params: QueryParams) -> (r: String) {
        match params {
            QueryParams::Version(d) => {
                let mut s = String::from_str("version=");
                s.append(d.as_str());
                s
            },
            QueryParams::FeedType(d) => {
                let mut s = String::from_str("feedType=");
                s.append(d.as_str());
                s
            },
            QueryParams::Key(d) => {
                let mut s = String::from_str("key=");
                s.append(d.as_str());
                s
            },
        }
    }
}

} // verus!
