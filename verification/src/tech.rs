//! Client for the TechTransfer endpoints: patents, software and spinoffs.

use crate::kernel::{
    runtime_failure, ClientError, CredentialProvider, Transport, TransportFault,
};
use crate::response::Response;
use vstd::prelude::*;

verus! {

/// The TechTransfer collections.
pub enum Collections {
    Patent,
    PatentIssued,
    Software,
    Spinoff,
}

/// The base URL that serves a collection.
pub open spec fn spec_collection_url(c: Collections) -> Seq<char> {
    match c {
        Collections::Patent => "https://api.nasa.gov/techtransfer/patent/?"@,
        Collections::PatentIssued => "https://api.nasa.gov/techtransfer/patent_issued/?"@,
        Collections::Software => "https://api.nasa.gov/techtransfer/software/?"@,
        Collections::Spinoff => "https://api.nasa.gov/techtransfer/spinoff/?"@,
    }
}

/// Base client for the TechTransfer API
#[derive(Debug)]
pub struct TechTransferClient {
    base_url: String,
}

impl TechTransferClient {
    /// The base URL this client queries.
    pub closed spec fn spec_base_url(&self) -> Seq<char> {
        self.base_url@
    }

    /// A client on the patent collection.
    pub fn new() -> (r: Self)
        ensures
            r.spec_base_url() == spec_collection_url(Collections::Patent),
    {
        TechTransferClient {
            base_url: String::from_str("https://api.nasa.gov/techtransfer/patent/?"),
        }
    }

    /// Switches the collection this client queries.
    pub fn switch(&mut self, collection: Collections) -> (r: Result<(), ClientError>)
        ensures
            r is Ok,
            final(self).spec_base_url() == spec_collection_url(collection),
    {
        match collection {
            Collections::Patent => {
                self.base_url = String::from_str("https://api.nasa.gov/techtransfer/patent/?");
                Ok(())
            },
            Collections::PatentIssued => {
                self.base_url = String::from_str(
                    "https://api.nasa.gov/techtransfer/patent_issued/?",
                );
                Ok(())
            },
            Collections::Software => {
                self.base_url = String::from_str("https://api.nasa.gov/techtransfer/software/?");
                Ok(())
            },
            Collections::Spinoff => {
                self.base_url = String::from_str("https://api.nasa.gov/techtransfer/spinoff/?");
                Ok(())
            },
        }
    }

    /// The URL one query composes for the given search text and credential.
    pub open spec fn spec_query_url(&self, query: Seq<char>, key: Seq<char>) -> Seq<char> {
        self.spec_base_url() + query + "&api_key="@ + key
    }

    /// Composes the URL one query fetches for the given search text and
    /// credential.
    pub fn query_url(&self, query: &str, key: &str) -> (r: String)
        ensures
            r@ == self.spec_query_url(query@, key@),
    {
        let mut url = String::from_str(self.base_url.as_str());
        url.append(query);
        url.append("&api_key=");
        url.append(key);
        proof {
            assert(url@ =~= self.spec_query_url(query@, key@));
        }
        url
    }

    /// Queries the collection with the given search text and decodes the
    /// response; the URL fetched is exactly `spec_query_url` of the text
    /// and the loaded credential.
    pub fn query<C: CredentialProvider, T: Transport>(
        &self,
        provider: &C,
        transport: &T,
        query: String,
    ) -> (r: Result<Response, ClientError>)
        ensures
            r is Err ==> runtime_failure(r->Err_0),
    {
        let key = match provider.load() {
            Ok(k) => k,
            Err(_) => {
                return Err(ClientError::MissingCredential);
            },
        };
        let url = self.query_url(query.as_str(), key.as_str());
        let res = match transport.fetch(url.as_str()) {
            Ok(b) => b,
            Err(TransportFault { status, body }) => {
                return Err(ClientError::TransportError { status, body });
            },
        };
        crate::response::into_response(res.as_str())
    }
}

} // verus!
