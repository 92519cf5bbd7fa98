//! Client for the Near Earth Object feed, returning a decoded `Response`.

use crate::kernel::{
    runtime_failure, ClientError, CredentialProvider, Transport, TransportFault,
};
use crate::response::Response;
use vstd::prelude::*;

verus! {

/// Base client for the NEO feed API
#[derive(Debug)]
pub struct Neo {
    base_url: String,
}

impl Neo {
    /// The base URL this client queries.
    pub closed spec fn spec_base_url(&self) -> Seq<char> {
        self.base_url@
    }

    /// Create a new base client
    pub fn new() -> (r: Self)
        ensures
            r.spec_base_url() == "https://api.nasa.gov/neo/rest/v1/feed?start_date="@,
    {
        Neo { base_url: String::from_str("https://api.nasa.gov/neo/rest/v1/feed?start_date=") }
    }

    /// The URL one query composes for the given interval and credential.
    pub open spec fn spec_query_url(&self, start: Seq<char>, end: Seq<char>, key: Seq<char>) -> Seq<
        char,
    > {
        self.spec_base_url() + start + "&endDate="@ + end + "&api_key="@ + key
    }

    /// Composes the query URL for the given interval and credential.
    pub fn query_url(&self, start: &str, end: &str, key: &str) -> (r: String)
        ensures
            r@ == self.spec_query_url(start@, end@, key@),
    {
        let mut url = String::from_str(self.base_url.as_str());
        url.append(start);
        url.append("&endDate=");
        url.append(end);
        url.append("&api_key=");
        url.append(key);
        proof {
            assert(url@ =~= self.spec_query_url(start@, end@, key@));
        }
        url
    }

    /// Queries the feed over the given interval and decodes the response.
    pub fn query<C: CredentialProvider, T: Transport>(
        &self,
        provider: &C,
        transport: &T,
        start: String,
        end: String,
    ) -> (r: Result<Response, ClientError>)
        ensures
            r is Err ==> runtime_failure(r->Err_0),
    {
        let key = match provider.load() {
            Ok(k) => k,
            Err(_) => {
                return Err(ClientError::MissingCredential);
            },
        };
        let url = self.query_url(start.as_str(), end.as_str(), key.as_str());
        let res = match transport.fetch(url.as_str()) {
            Ok(b) => b,
            Err(TransportFault { status, body }) => {
                return Err(ClientError::TransportError { status, body });
            },
        };
        crate::response::into_response(res.as_str())
    }
}

} // verus!
