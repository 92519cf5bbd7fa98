//! Clients for the space-weather (DONKI) endpoints, returning
//! pretty-printed response text.

use crate::kernel::{
    runtime_failure, ClientError, CredentialProvider, Transport, TransportFault,
};
use vstd::prelude::*;

verus! {

/// Base Client for the Solar Flare API
#[derive(Debug, PartialEq)]
pub struct SolarFlare {
    base_url: String,
}

impl SolarFlare {
    /// The base URL this client queries.
    pub closed spec fn spec_base_url(&self) -> Seq<char> {
        self.base_url@
    }

    /// Create a new base client
    pub fn new() -> (r: Self)
        ensures
            r.spec_base_url() == "https://api.nasa.gov/DONKI/FLR?startDate="@,
    {
        SolarFlare { base_url: String::from_str("https://api.nasa.gov/DONKI/FLR?startDate=") }
    }

    /// The URL one query composes for the given interval and credential.
    pub open spec fn spec_query_url(&self, start: Seq<char>, end: Seq<char>, key: Seq<char>) -> Seq<
        char,
    > {
        self.spec_base_url() + start + "&endDate="@ + end + "&api_key="@ + key
    }

    /// Composes the query URL for the given interval and credential.
    pub fn query_url(&self, start: &str, end: &str, key: &str) -> (r: String)
        ensures
            r@ == self.spec_query_url(start@, end@, key@),
    {
        let mut url = String::from_str(self.base_url.as_str());
        url.append(start);
        url.append("&endDate=");
        url.append(end);
        url.append("&api_key=");
        url.append(key);
        proof {
            assert(url@ =~= self.spec_query_url(start@, end@, key@));
        }
        url
    }

    /// Queries the endpoint over the given interval and returns the
    /// pretty-printed response text.
    pub fn query<C: CredentialProvider, T: Transport>(
        &self,
        provider: &C,
        transport: &T,
        start: String,
        end: String,
    ) -> (r: Result<String, ClientError>)
        ensures
            r is Err ==> runtime_failure(r->Err_0),
            r is Ok ==> exists|b: Seq<char>|
                crate::json::json_wf(b) && r->Ok_0@ == crate::json::pretty_of(b),
    {
        let key = match provider.load() {
            Ok(k) => k,
            Err(_) => {
                return Err(ClientError::MissingCredential);
            },
        };
        let url = self.query_url(start.as_str(), end.as_str(), key.as_str());
        let res = match transport.fetch(url.as_str()) {
            Ok(b) => b,
            Err(TransportFault { status, body }) => {
                return Err(ClientError::TransportError { status, body });
            },
        };
        match crate::pretty::to_string_pretty(res) {
            Ok(p) => Ok(p),
            Err(e) => Err(e),
        }
    }
}

/// Base Client for the GeoMagnetic Storms API
#[derive(Debug, PartialEq)]
pub struct GeoMagnetic {
    base_url: String,
}

impl GeoMagnetic {
    /// The base URL this client queries.
    pub closed spec fn spec_base_url(&self) -> Seq<char> {
        self.base_url@
    }

    /// Create a new base client
    pub fn new() -> (r: Self)
        ensures
            r.spec_base_url() == "https://api.nasa.gov/DONKI/GST?startDate="@,
    {
        GeoMagnetic { base_url: String::from_str("https://api.nasa.gov/DONKI/GST?startDate=") }
    }

    /// The URL one query composes for the given interval and credential.
    pub open spec fn spec_query_url(&self, start: Seq<char>, end: Seq<char>, key: Seq<char>) -> Seq<
        char,
    > {
        self.spec_base_url() + start + "&endDate="@ + end + "&api_key="@ + key
    }

    /// Composes the query URL for the given interval and credential.
    pub fn query_url(&self, start: &str, end: &str, key: &str) -> (r: String)
        ensures
            r@ == self.spec_query_url(start@, end@, key@),
    {
        let mut url = String::from_str(self.base_url.as_str());
        url.append(start);
        url.append("&endDate=");
        url.append(end);
        url.append("&api_key=");
        url.append(key);
        proof {
            assert(url@ =~= self.spec_query_url(start@, end@, key@));
        }
        url
    }

    /// Queries the endpoint over the given interval and returns the
    /// pretty-printed response text.
    pub fn query<C: CredentialProvider, T: Transport>(
        &self,
        provider: &C,
        transport: &T,
        start: String,
        end: String,
    ) -> (r: Result<String, ClientError>)
        ensures
            r is Err ==> runtime_failure(r->Err_0),
            r is Ok ==> exists|b: Seq<char>|
                crate::json::json_wf(b) && r->Ok_0@ == crate::json::pretty_of(b),
    {
        let key = match provider.load() {
            Ok(k) => k,
            Err(_) => {
                return Err(ClientError::MissingCredential);
            },
        };
        let url = self.query_url(start.as_str(), end.as_str(), key.as_str());
        let res = match transport.fetch(url.as_str()) {
            Ok(b) => b,
            Err(TransportFault { status, body }) => {
                return Err(ClientError::TransportError { status, body });
            },
        };
        match crate::pretty::to_string_pretty(res) {
            Ok(p) => Ok(p),
            Err(e) => Err(e),
        }
    }
}

/// Base Client for the Coronal Mass Ejection API
#[derive(Debug, PartialEq)]
pub struct CoronalMassEjection {
    base_url: String,
}

impl CoronalMassEjection {
    /// The base URL this client queries.
    pub closed spec fn spec_base_url(&self) -> Seq<char> {
        self.base_url@
    }

    /// Create a new base client
    pub fn new() -> (r: Self)
        ensures
            r.spec_base_url() == "https://api.nasa.gov/DONKI/CME?startDate="@,
    {
        CoronalMassEjection { base_url: String::from_str("https://api.nasa.gov/DONKI/CME?startDate=") }
    }

    /// The URL one query composes for the given interval and credential.
    pub open spec fn spec_query_url(&self, start: Seq<char>, end: Seq<char>, key: Seq<char>) -> Seq<
        char,
    > {
        self.spec_base_url() + start + "&endDate="@ + end + "&api_key="@ + key
    }

    /// Composes the query URL for the given interval and credential.
    pub fn query_url(&self, start: &str, end: &str, key: &str) -> (r: String)
        ensures
            r@ == self.spec_query_url(start@, end@, key@),
    {
        let mut url = String::from_str(self.base_url.as_str());
        url.append(start);
        url.append("&endDate=");
        url.append(end);
        url.append("&api_key=");
        url.append(key);
        proof {
            assert(url@ =~= self.spec_query_url(start@, end@, key@));
        }
        url
    }

    /// Queries the endpoint over the given interval and returns the
    /// pretty-printed response text.
    pub fn query<C: CredentialProvider, T: Transport>(
        &self,
        provider: &C,
        transport: &T,
        start: String,
        end: String,
    ) -> (r: Result<String, ClientError>)
        ensures
            r is Err ==> runtime_failure(r->Err_0),
            r is Ok ==> exists|b: Seq<char>|
                crate::json::json_wf(b) && r->Ok_0@ == crate::json::pretty_of(b),
    {
        let key = match provider.load() {
            Ok(k) => k,
            Err(_) => {
                return Err(ClientError::MissingCredential);
            },
        };
        let url = self.query_url(start.as_str(), end.as_str(), key.as_str());
        let res = match transport.fetch(url.as_str()) {
            Ok(b) => b,
            Err(TransportFault { status, body }) => {
                return Err(ClientError::TransportError { status, body });
            },
        };
        match crate::pretty::to_string_pretty(res) {
            Ok(p) => Ok(p),
            Err(e) => Err(e),
        }
    }
}

/// Base Client for the Solar Energetic Particle API
#[derive(Debug, PartialEq)]
pub struct SolarEnergeticParticle {
    base_url: String,
}

impl SolarEnergeticParticle {
    /// The base URL this client queries.
    pub closed spec fn spec_base_url(&self) -> Seq<char> {
        self.base_url@
    }

    /// Create a new base client
    pub fn new() -> (r: Self)
        ensures
            r.spec_base_url() == "https://api.nasa.gov/DONKI/SEP?"@,
    {
        SolarEnergeticParticle { base_url: String::from_str("https://api.nasa.gov/DONKI/SEP?") }
    }

    /// The URL one query composes for the given interval and credential.
    pub open spec fn spec_query_url(&self, start: Seq<char>, end: Seq<char>, key: Seq<char>) -> Seq<
        char,
    > {
        self.spec_base_url() + "startDate="@ + start + "&endDate="@ + end + "&api_key="@ + key
    }

    /// Composes the query URL for the given interval and credential.
    pub fn query_url(&self, start: &str, end: &str, key: &str) -> (r: String)
        ensures
            r@ == self.spec_query_url(start@, end@, key@),
    {
        let mut url = String::from_str(self.base_url.as_str());
        url.append("startDate=");
        url.append(start);
        url.append("&endDate=");
        url.append(end);
        url.append("&api_key=");
        url.append(key);
        proof {
            assert(url@ =~= self.spec_query_url(start@, end@, key@));
        }
        url
    }

    /// Queries the endpoint over the given interval and returns the
    /// pretty-printed response text.
    pub fn query<C: CredentialProvider, T: Transport>(
        &self,
        provider: &C,
        transport: &T,
        start: String,
        end: String,
    ) -> (r: Result<String, ClientError>)
        ensures
            r is Err ==> runtime_failure(r->Err_0),
            r is Ok ==> exists|b: Seq<char>|
                crate::json::json_wf(b) && r->Ok_0@ == crate::json::pretty_of(b),
    {
        let key = match provider.load() {
            Ok(k) => k,
            Err(_) => {
                return Err(ClientError::MissingCredential);
            },
        };
        let url = self.query_url(start.as_str(), end.as_str(), key.as_str());
        let res = match transport.fetch(url.as_str()) {
            Ok(b) => b,
            Err(TransportFault { status, body }) => {
                return Err(ClientError::TransportError { status, body });
            },
        };
        match crate::pretty::to_string_pretty(res) {
            Ok(p) => Ok(p),
            Err(e) => Err(e),
        }
    }
}

} // verus!
