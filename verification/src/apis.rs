//! Flat clients: one type per endpoint, each query returning the raw body
//! text undecoded.

use crate::kernel::{
    runtime_failure, ClientError, CredentialProvider, Transport, TransportFault,
};
use vstd::prelude::*;

verus! {

/// Implementation of the Picture of the Day API
pub struct ApodClient {}

/// Parameters for the APOD API
#[derive(Debug, PartialEq)]
pub enum ApodParams {
    /// `date=YYYY-MM-DD`
    Date(String),
    /// `start_date=YYYY-MM-DD`
    StartDate(String),
    /// `end_date=YYYY-MM-DD`
    EndDate(String),
}

impl ApodParams {
    /// The query fragment this value renders to.
    pub open spec fn spec_fragment(&self) -> Seq<char> {
        match self {
            ApodParams::Date(d) => "date="@ + d@,
            ApodParams::StartDate(d) => "start_date="@ + d@,
            ApodParams::EndDate(d) => "end_date="@ + d@,
        }
    }

    /// Renders the `key=value` query fragment.
    pub fn fragment(&self) -> (r: String)
        ensures
            r@ == self.spec_fragment(),
    {
        match self {
            ApodParams::Date(d) => {
                let mut s = String::from_str("date=");
                s.append(d.as_str());
                s
            },
            ApodParams::StartDate(d) => {
                let mut s = String::from_str("start_date=");
                s.append(d.as_str());
                s
            },
            ApodParams::EndDate(d) => {
                let mut s = String::from_str("end_date=");
                s.append(d.as_str());
                s
            },
        }
    }
}


impl Default for ApodParams {
    /// The default parameters: today's date, read from the clock.
    fn default() -> (r: Self)
        ensures
            exists|t: Seq<char>|
                crate::timing::is_shifted_clock_date(t, 0, 0) && r.spec_fragment() == "date="@
                    + t,
    {
        let d = crate::timing::today();
        let ghost t = d@;
        let r = ApodParams::Date(d);
        proof {
            assert(crate::timing::is_shifted_clock_date(t, 0, 0));
            assert(r.spec_fragment() == "date="@ + t);
        }
        r
    }
}

/// The URL these flat clients compose: the connection prefix (which already
/// ends in `?`), the fragment, and the credential.
pub open spec fn spec_flat_url(conn: Seq<char>, frag: Seq<char>, key: Seq<char>) -> Seq<char> {
    conn + frag + "&api_key="@ + key
}

/// Composes the URL of a flat client.
pub fn flat_url(conn: &str, frag: &str, key: &str) -> (r: String)
    ensures
        r@ == spec_flat_url(conn@, frag@, key@),
{
    let mut url = String::from_str(conn);
    url.append(frag);
    url.append("&api_key=");
    url.append(key);
    proof {
        assert(url@ =~= spec_flat_url(conn@, frag@, key@));
    }
    url
}

impl ApodClient {
    /// Queries the endpoint with the given parameters and returns the raw
    /// body text; no decoding happens here.
    pub fn get<C: CredentialProvider, T: Transport>(
        &self,
        provider: &C,
        transport: &T,
        params: ApodParams,
    ) -> (r: Result<String, ClientError>)
        ensures
            r is Err ==> runtime_failure(r->Err_0),
    {
        let key = match provider.load() {
            Ok(k) => k,
            Err(_) => {
                return Err(ClientError::MissingCredential);
            },
        };
        let url = flat_url(
            "https://api.nasa.gov/planetary/apod?",
            params.fragment().as_str(),
            key.as_str(),
        );
        match transport.fetch(url.as_str()) {
            Ok(body) => Ok(body),
            Err(TransportFault { status, body }) => Err(
                ClientError::TransportError { status, body },
            ),
        }
    }
}

/// Implementation of the Near Earth Objects API
pub struct NeoClient {}

/// Parameters for the NEO API
#[derive(Debug, PartialEq)]
pub enum NeoParams {
    /// `start_date=YYYY-MM-DD`
    StartDate(String),
    /// `end_date=YYYY-MM-DD`
    EndDate(String),
}

impl NeoParams {
    /// The query fragment this value renders to.
    pub open spec fn spec_fragment(&self) -> Seq<char> {
        match self {
            NeoParams::StartDate(d) => "start_date="@ + d@,
            NeoParams::EndDate(d) => "end_date="@ + d@,
        }
    }

    /// Renders the `key=value` query fragment.
    pub fn fragment(&self) -> (r: String)
        ensures
            r@ == self.spec_fragment(),
    {
        match self {
            NeoParams::StartDate(d) => {
                let mut s = String::from_str("start_date=");
                s.append(d.as_str());
                s
            },
            NeoParams::EndDate(d) => {
                let mut s = String::from_str("end_date=");
                s.append(d.as_str());
                s
            },
        }
    }
}

impl NeoClient {
    /// Queries the endpoint with the given parameters and returns the raw
    /// body text; no decoding happens here.
    pub fn get<C: CredentialProvider, T: Transport>(
        &self,
        provider: &C,
        transport: &T,
        params: NeoParams,
    ) -> (r: Result<String, ClientError>)
        ensures
            r is Err ==> runtime_failure(r->Err_0),
    {
        let key = match provider.load() {
            Ok(k) => k,
            Err(_) => {
                return Err(ClientError::MissingCredential);
            },
        };
        let url = flat_url(
            "https://api.nasa.gov/neo/rest/v1/feed?",
            params.fragment().as_str(),
            key.as_str(),
        );
        match transport.fetch(url.as_str()) {
            Ok(body) => Ok(body),
            Err(TransportFault { status, body }) => Err(
                ClientError::TransportError { status, body },
            ),
        }
    }
}

} // verus!
