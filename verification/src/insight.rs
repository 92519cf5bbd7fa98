//! Client for the InSight Mars-weather endpoint.

use crate::kernel::{
    runtime_failure, ClientError, CredentialProvider, Transport, TransportFault,
};
use crate::response::Response;
use vstd::prelude::*;

verus! {

/// Base client for the InSight weather API
#[derive(Debug, PartialEq)]
pub struct InsightWeather {
    base_url: String,
}

impl InsightWeather {
    /// The base URL this client queries.
    pub closed spec fn spec_base_url(&self) -> Seq<char> {
        self.base_url@
    }

    /// Create a new base client
    pub fn new() -> (r: Self)
        ensures
            r.spec_base_url() == "https://api.nasa.gov/insight_weather/?api_key="@,
    {
        InsightWeather {
            base_url: String::from_str("https://api.nasa.gov/insight_weather/?api_key="),
        }
    }

    /// The URL one query composes for the given credential.
    pub open spec fn spec_query_url(&self, key: Seq<char>) -> Seq<char> {
        self.spec_base_url() + key + "&feedtype=json&ver=1.0"@
    }

    /// Composes the query URL for the given credential.
    pub fn query_url(&self, key: &str) -> (r: String)
        ensures
            r@ == self.spec_query_url(key@),
    {
        let mut url = String::from_str(self.base_url.as_str());
        url.append(key);
        url.append("&feedtype=json&ver=1.0");
        proof {
            assert(url@ =~= self.spec_query_url(key@));
        }
        url
    }

    /// Queries the endpoint and decodes the response.
    pub fn query<C: CredentialProvider, T: Transport>(&self, provider: &C, transport: &T) -> (r:
        Result<Response, ClientError>)
        ensures
            r is Err ==> runtime_failure(r->Err_0),
    {
        let key = match provider.load() {
            Ok(k) => k,
            Err(_) => {
                return Err(ClientError::MissingCredential);
            },
        };
        let url = self.query_url(key.as_str());
        let res = match transport.fetch(url.as_str()) {
            Ok(b) => b,
            Err(TransportFault { status, body }) => {
                return Err(ClientError::TransportError { status, body });
            },
        };
        crate::response::into_response(res.as_str())
    }
}

} // verus!
