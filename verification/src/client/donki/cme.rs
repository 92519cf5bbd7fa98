//! The Coronal Mass Ejection API, in basic and analysis mode.

use crate::kernel::{
    runtime_failure, ClientError, CredentialProvider, Transport, TransportFault,
};
use crate::text::{spec_digits, u64_to_string};
use vstd::prelude::*;

verus! {

/// Client for the Coronal Mass Ejection API
pub struct CoronalMassEjectionClient {
    analysis: bool,
}

/// The catalogs the analysis mode can restrict to.
#[allow(non_camel_case_types)]
#[derive(Debug, PartialEq, Eq, Clone)]
pub enum CatalogChoices {
    ALL,
    SWRC_CATALOG,
    JANG_ET_AL_CATALOG,
}

/// The text a catalog choice renders to.
pub open spec fn spec_catalog(c: CatalogChoices) -> Seq<char> {
    match c {
        CatalogChoices::ALL => "ALL"@,
        CatalogChoices::SWRC_CATALOG => "SWRC_CATALOG"@,
        CatalogChoices::JANG_ET_AL_CATALOG => "JANG_ET_AL_CATALOG"@,
    }
}

/// Parameters for the Coronal Mass Ejection API
#[derive(Debug, PartialEq, Eq, Clone)]
pub enum CMEParams {
    /// Available in both modes
    StartDate(String),
    /// Available in both modes
    EndDate(String),
    /// Only available in the analysis mode
    MostAccurateOnly,
    /// Only available in the analysis mode
    CompleteEntryOnly,
    /// Only available in the analysis mode
    Speed(usize),
    /// Only available in the analysis mode
    HalfAngle(usize),
    /// Only available in the analysis mode
    Catalog(CatalogChoices),
}

impl CMEParams {
    /// Whether this parameter may be used in the basic (non-analysis) mode.
    pub open spec fn spec_basic_mode_ok(&self) -> bool {
        self is StartDate || self is EndDate
    }

    /// The query fragment this value renders to.
    pub open spec fn spec_fragment(&self) -> Seq<char> {
        match self {
            CMEParams::StartDate(d) => "startDate="@ + d@,
            CMEParams::EndDate(d) => "endDate="@ + d@,
            CMEParams::MostAccurateOnly => "mostAccurateOnly=true"@,
            CMEParams::CompleteEntryOnly => "completeEntryOnly=true"@,
            CMEParams::Speed(s) => "speed="@ + spec_digits(*s as nat),
            CMEParams::HalfAngle(a) => "halfAngle="@ + spec_digits(*a as nat),
            CMEParams::Catalog(c) => "catalog="@ + spec_catalog(*c),
        }
    }

    /// Renders the query fragment.
    pub fn fragment(&self) -> (r: String)
        ensures
            r@ == self.spec_fragment(),
    {
        match self {
            CMEParams::StartDate(d) => {
                let mut s = String::from_str("startDate=");
                s.append(d.as_str());
                s
            },
            CMEParams::EndDate(d) => {
                let mut s = String::from_str("endDate=");
                s.append(d.as_str());
                s
            },
            CMEParams::MostAccurateOnly => String::from_str("mostAccurateOnly=true"),
            CMEParams::CompleteEntryOnly => String::from_str("completeEntryOnly=true"),
            CMEParams::Speed(sp) => {
                let mut s = String::from_str("speed=");
                s.append(u64_to_string(*sp as u64).as_str());
                s
            },
            CMEParams::HalfAngle(a) => {
                let mut s = String::from_str("halfAngle=");
                s.append(u64_to_string(*a as u64).as_str());
                s
            },
            CMEParams::Catalog(c) => {
                let mut s = String::from_str("catalog=");
                match c {
                    CatalogChoices::ALL => s.append("ALL"),
                    CatalogChoices::SWRC_CATALOG => s.append("SWRC_CATALOG"),
                    CatalogChoices::JANG_ET_AL_CATALOG => s.append("JANG_ET_AL_CATALOG"),
                }
                s
            },
        }
    }
}

/// What stopped a CME query.
#[derive(Debug, PartialEq, Eq)]
pub enum CmeError {
    /// The parameter is only available in the analysis mode.
    InvalidParameter,
    /// The shared execution path failed.
    Failed(ClientError),
}

impl CoronalMassEjectionClient {
    /// Whether this client queries the analysis collection.
    pub closed spec fn spec_analysis(&self) -> bool {
        self.analysis
    }

    /// The URL one query composes: the collection for this client's mode,
    /// the parameter fragment and the credential.
    pub open spec fn spec_query_url(&self, params: &CMEParams, key: Seq<char>) -> Seq<char> {
        (if self.spec_analysis() {
            "https://api.nasa.gov/DONKI/CMEAnalysis?"@
        } else {
            "https://api.nasa.gov/DONKI/CME?"@
        }) + params.spec_fragment() + "&api_key="@ + key
    }

    /// Composes the URL one query fetches.
    pub fn query_url(&self, params: &CMEParams, key: &str) -> (r: String)
        ensures
            r@ == self.spec_query_url(params, key@),
    {
        let mut url = if self.analysis {
            String::from_str("https://api.nasa.gov/DONKI/CMEAnalysis?")
        } else {
            String::from_str("https://api.nasa.gov/DONKI/CME?")
        };
        url.append(params.fragment().as_str());
        url.append("&api_key=");
        url.append(key);
        proof {
            assert(url@ =~= self.spec_query_url(params, key@));
        }
        url
    }

    /// Create a new client
    pub fn new(analysis: bool) -> (r: Self)
        ensures
            r.spec_analysis() == analysis,
    {
        Self { analysis }
    }

    /// Queries the endpoint and returns the raw body text. In the basic
    /// mode exactly the date parameters are accepted; everything else is
    /// rejected before any credential or transport work. The URL fetched
    /// is exactly `spec_query_url` of the parameters and the loaded
    /// credential.
    pub fn get<C: CredentialProvider, T: Transport>(
        &self,
        provider: &C,
        transport: &T,
        params: CMEParams,
    ) -> (r: Result<String, CmeError>)
        ensures
            !self.spec_analysis() && !params.spec_basic_mode_ok() ==> r == Err::<String, CmeError>(
                CmeError::InvalidParameter,
            ),
            self.spec_analysis() || params.spec_basic_mode_ok() ==> r != Err::<String, CmeError>(
                CmeError::InvalidParameter,
            ),
            r is Err ==> (r->Err_0 == CmeError::InvalidParameter || (r->Err_0 matches
            CmeError::Failed(e) && runtime_failure(e))),
    {
        if !self.analysis {
            match &params {
                CMEParams::StartDate(_) => {},
                CMEParams::EndDate(_) => {},
                _ => {
                    return Err(CmeError::InvalidParameter);
                },
            }
        }
        let key = match provider.load() {
            Ok(k) => k,
            Err(_) => {
                return Err(CmeError::Failed(ClientError::MissingCredential));
            },
        };
        let url = self.query_url(&params, key.as_str());
        match transport.fetch(url.as_str()) {
            Ok(body) => Ok(body),
            Err(TransportFault { status, body }) => Err(
                CmeError::Failed(ClientError::TransportError { status, body }),
            ),
        }
    }
}

impl Default for CoronalMassEjectionClient {
    fn default() -> (r: Self)
        ensures
            !r.spec_analysis(),
    {
        Self { analysis: false }
    }
}

} // verus!
