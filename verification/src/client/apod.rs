//! The Picture of the Day API behind the flat client shape.

use crate::kernel::{
    runtime_failure, ClientError, CredentialProvider, Transport, TransportFault,
};
use vstd::prelude::*;

verus! {

/// Implementation of the Picture of the Day API
pub struct ApodClient {}

/// Parameters for the APOD API
#[derive(Debug, PartialEq)]
pub enum ApodParams {
    /// `date=YYYY-MM-DD`
    Date(String),
    /// `start_date=YYYY-MM-DD`
    StartDate(String),
    /// `end_date=YYYY-MM-DD`
    EndDate(String),
}

impl ApodParams {
    /// The query fragment this value renders to.
    pub open spec fn spec_fragment(&self) -> Seq<char> {
        match self {
            ApodParams::Date(d) => "date="@ + d@,
            ApodParams::StartDate(d) => "start_date="@ + d@,
            ApodParams::EndDate(d) => "end_date="@ + d@,
        }
    }

    /// Renders the `key=value` query fragment.
    pub fn fragment(&self) -> (r: String)
        ensures
            r@ == self.spec_fragment(),
    {
        match self {
            ApodParams::Date(d) => {
                let mut s = String::from_str("date=");
                s.append(d.as_str());
                s
            },
            ApodParams::StartDate(d) => {
                let mut s = String::from_str("start_date=");
                s.append(d.as_str());
                s
            },
            ApodParams::EndDate(d) => {
                let mut s = String::from_str("end_date=");
                s.append(d.as_str());
                s
            },
        }
    }
}


impl Default for ApodParams {
    /// The default parameters: today's date, read from the clock.
    fn default() -> (r: Self)
        ensures
            exists|t: Seq<char>|
                crate::timing::is_shifted_clock_date(t, 0, 0) && r.spec_fragment() == "date="@
                    + t,
    {
        let d = crate::timing::today();
        let ghost t = d@;
        let r = ApodParams::Date(d);
        proof {
            assert(crate::timing::is_shifted_clock_date(t, 0, 0));
            assert(r.spec_fragment() == "date="@ + t);
        }
        r
    }
}

impl ApodClient {
    /// Queries the endpoint with the given parameters and returns the raw
    /// body text.
    pub fn get<C: CredentialProvider, T: Transport>(
        &self,
        provider: &C,
        transport: &T,
        params: ApodParams,
    ) -> (r: Result<String, ClientError>)
        ensures
            r is Err ==> runtime_failure(r->Err_0),
    {
        let key = match provider.load() {
            Ok(k) => k,
            Err(_) => {
                return Err(ClientError::MissingCredential);
            },
        };
        let url = crate::apis::flat_url(
            "https://api.nasa.gov/planetary/apod?",
            params.fragment().as_str(),
            key.as_str(),
        );
        match transport.fetch(url.as_str()) {
            Ok(body) => Ok(body),
            Err(TransportFault { status, body }) => Err(
                ClientError::TransportError { status, body },
            ),
        }
    }
}

} // verus!
