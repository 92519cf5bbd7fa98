//! The Interplanetary Shock API behind the flat client shape.

use crate::kernel::{
    runtime_failure, ClientError, CredentialProvider, Transport, TransportFault,
};
use vstd::prelude::*;

verus! {

/// Client for the Interplanetary Shock API
pub struct InterplanetaryShockClient {}

/// Location choices for the Interplanetary Shock API
#[allow(non_camel_case_types)]
#[derive(Debug, Clone, PartialEq, Eq)]
pub enum LocChoice {
    /// The default LocChoice
    ALL,
    EARTH,
    MESSENGER,
    STEREO_A,
    STEREO_B,
}

/// Catalog choices for the Interplanetary Shock API
#[allow(non_camel_case_types)]
#[derive(Debug, Clone, PartialEq, Eq)]
pub enum CatalogChoice {
    /// The default CatalogChoice
    ALL,
    SWRC_CATALOG,
    WINSLOW_MESSENGER_ICME_CATALOG,
}

/// The text a location choice renders to.
pub open spec fn spec_loc(c: LocChoice) -> Seq<char> {
    match c {
        LocChoice::ALL => "ALL"@,
        LocChoice::EARTH => "EARTH"@,
        LocChoice::MESSENGER => "MESSENGER"@,
        LocChoice::STEREO_A => "STEREO_A"@,
        LocChoice::STEREO_B => "STEREO_B"@,
    }
}

/// The text a catalog choice renders to.
pub open spec fn spec_ips_catalog(c: CatalogChoice) -> Seq<char> {
    match c {
        CatalogChoice::ALL => "ALL"@,
        CatalogChoice::SWRC_CATALOG => "SWRC_CATALOG"@,
        CatalogChoice::WINSLOW_MESSENGER_ICME_CATALOG => "WINSLOW_MESSENGER_ICME_CATALOG"@,
    }
}

/// Parameters for the Interplanetary Shock API
#[derive(Debug, Clone, PartialEq, Eq)]
pub enum IPSParams {
    Location(LocChoice),
    Catalog(CatalogChoice),
    StartDate(String),
    EndDate(String),
}

impl IPSParams {
    /// The query fragment this value renders to.
    pub open spec fn spec_fragment(&self) -> Seq<char> {
        match self {
            IPSParams::Location(l) => "location="@ + spec_loc(*l),
            IPSParams::Catalog(c) => "catalog="@ + spec_ips_catalog(*c),
            IPSParams::StartDate(d) => "startDate="@ + d@,
            IPSParams::EndDate(d) => "endDate="@ + d@,
        }
    }

    /// Renders the query fragment.
    pub fn fragment(&self) -> (r: String)
        ensures
            r@ == self.spec_fragment(),
    {
        match self {
            IPSParams::Location(l) => {
                let mut s = String::from_str("location=");
                match l {
                    LocChoice::ALL => s.append("ALL"),
                    LocChoice::EARTH => s.append("EARTH"),
                    LocChoice::MESSENGER => s.append("MESSENGER"),
                    LocChoice::STEREO_A => s.append("STEREO_A"),
                    LocChoice::STEREO_B => s.append("STEREO_B"),
                }
                s
            },
            IPSParams::Catalog(c) => {
                let mut s = String::from_str("catalog=");
                match c {
                    CatalogChoice::ALL => s.append("ALL"),
                    CatalogChoice::SWRC_CATALOG => s.append("SWRC_CATALOG"),
                    CatalogChoice::WINSLOW_MESSENGER_ICME_CATALOG => s.append(
                        "WINSLOW_MESSENGER_ICME_CATALOG",
                    ),
                }
                s
            },
            IPSParams::StartDate(d) => {
                let mut s = String::from_str("startDate=");
                s.append(d.as_str());
                s
            },
            IPSParams::EndDate(d) => {
                let mut s = String::from_str("endDate=");
                s.append(d.as_str());
                s
            },
        }
    }
}

impl InterplanetaryShockClient {
    /// Create a new client
    pub fn new() -> (r: Self)
        ensures
            r == (InterplanetaryShockClient {  }),
    {
        Self {  }
    }

    /// Queries the endpoint and returns the raw body text.
    pub fn get<C: CredentialProvider, T: Transport>(
        &self,
        provider: &C,
        transport: &T,
        params: IPSParams,
    ) -> (r: Result<String, ClientError>)
        ensures
            r is Err ==> runtime_failure(r->Err_0),
    {
        let key = match provider.load() {
            Ok(k) => k,
            Err(_) => {
                return Err(ClientError::MissingCredential);
            },
        };
        let url = crate::apis::flat_url(
            "https://api.nasa.gov/DONKI/IPS?",
            params.fragment().as_str(),
            key.as_str(),
        );
        match transport.fetch(url.as_str()) {
            Ok(body) => Ok(body),
            Err(TransportFault { status, body }) => Err(
                ClientError::TransportError { status, body },
            ),
        }
    }
}

impl Default for InterplanetaryShockClient {
    fn default() -> (r: Self)
        ensures
            r == (InterplanetaryShockClient {  }),
    {
        Self {  }
    }
}

} // verus!
