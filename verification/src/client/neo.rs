//! The Near Earth Objects API in its three modes.

use crate::kernel::{
    runtime_failure, ClientError, CredentialProvider, Transport, TransportFault,
};
use vstd::prelude::*;

verus! {

/// Mode for the NEO client: feed, browse, or lookup
#[derive(Debug, PartialEq, Eq, Clone, Copy)]
pub enum NeoMode {
    /// Feed mode
    FEED,
    /// Browse mode
    BROWSE,
    /// Lookup mode
    LOOKUP,
}

/// Client for the NEO API
pub struct NeoClient {
    mode: NeoMode,
}

impl Default for NeoClient {
    fn default() -> (r: Self)
        ensures
            r.spec_neo_mode() == NeoMode::FEED,
    {
        Self { mode: NeoMode::FEED }
    }
}

/// Parameters for the NEO API
#[derive(Debug)]
pub enum NeoParams {
    /// `start_date=YYYY-MM-DD`
    StartDate(String),
    /// `end_date=YYYY-MM-DD`
    EndDate(String),
    /// Both interval bounds at once
    DateRange { start: String, end: String },
    /// The browse collection
    Browse,
    /// One asteroid by its SPK-ID
    AsteroidId(String),
}

impl NeoParams {
    /// The query fragment this value renders to.
    pub open spec fn spec_fragment(&self) -> Seq<char> {
        match self {
            NeoParams::StartDate(d) => "start_date="@ + d@,
            NeoParams::EndDate(d) => "end_date="@ + d@,
            NeoParams::DateRange { start, end } => "start_date="@ + start@ + "&end_date="@
                + end@,
            NeoParams::Browse => "browse"@,
            NeoParams::AsteroidId(id) => id@,
        }
    }

    /// Renders the query fragment.
    pub fn fragment(&self) -> (r: String)
        ensures
            r@ == self.spec_fragment(),
    {
        match self {
            NeoParams::StartDate(d) => {
                let mut s = String::from_str("start_date=");
                s.append(d.as_str());
                s
            },
            NeoParams::EndDate(d) => {
                let mut s = String::from_str("end_date=");
                s.append(d.as_str());
                s
            },
            NeoParams::DateRange { start, end } => {
                let mut s = String::from_str("start_date=");
                s.append(start.as_str());
                s.append("&end_date=");
                s.append(end.as_str());
                s
            },
            NeoParams::Browse => String::from_str("browse"),
            NeoParams::AsteroidId(id) => String::from_str(id.as_str()),
        }
    }
}

/// The URL segment a mode selects under the NEO base URL.
pub open spec fn spec_neo_segment(mode: NeoMode) -> Seq<char> {
    match mode {
        NeoMode::FEED => "feed?"@,
        NeoMode::BROWSE => "browse/"@,
        NeoMode::LOOKUP => "neo/"@,
    }
}

impl NeoClient {
    /// The mode this client queries in.
    pub closed spec fn spec_neo_mode(&self) -> NeoMode {
        self.mode
    }

    /// The URL one query composes: the base URL, the mode's segment, the
    /// parameter fragment and the credential.
    pub open spec fn spec_query_url(&self, params: &NeoParams, key: Seq<char>) -> Seq<char> {
        "https://api.nasa.gov/neo/rest/v1/"@ + spec_neo_segment(self.spec_neo_mode())
            + params.spec_fragment() + "&api_key="@ + key
    }

    /// Composes the URL one query fetches.
    pub fn query_url(&self, params: &NeoParams, key: &str) -> (r: String)
        ensures
            r@ == self.spec_query_url(params, key@),
    {
        let mut url = String::from_str("https://api.nasa.gov/neo/rest/v1/");
        match self.mode {
            NeoMode::FEED => url.append("feed?"),
            NeoMode::BROWSE => url.append("browse/"),
            NeoMode::LOOKUP => url.append("neo/"),
        }
        url.append(params.fragment().as_str());
        url.append("&api_key=");
        url.append(key);
        proof {
            assert(url@ =~= self.spec_query_url(params, key@));
        }
        url
    }

    /// A client in the given mode.
    pub fn new(mode: NeoMode) -> (r: Self)
        ensures
            r.spec_neo_mode() == mode,
    {
        Self { mode }
    }

    /// Queries the endpoint in this client's mode and returns the raw body
    /// text; the URL fetched is exactly `spec_query_url` of the parameters
    /// and the loaded credential.
    pub fn get<C: CredentialProvider, T: Transport>(
        &self,
        provider: &C,
        transport: &T,
        params: NeoParams,
    ) -> (r: Result<String, ClientError>)
        ensures
            r is Err ==> runtime_failure(r->Err_0),
    {
        let key = match provider.load() {
            Ok(k) => k,
            Err(_) => {
                return Err(ClientError::MissingCredential);
            },
        };
        let url = self.query_url(&params, key.as_str());
        match transport.fetch(url.as_str()) {
            Ok(body) => Ok(body),
            Err(TransportFault { status, body }) => Err(
                ClientError::TransportError { status, body },
            ),
        }
    }
}

} // verus!
