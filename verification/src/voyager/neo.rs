//! The canned Near Earth Object query: the last day's feed.

use crate::json::{json_wf, pretty_of};
use crate::kernel::{ClientError, CredentialProvider, Transport, TransportFault};
use vstd::prelude::*;

verus! {

/// Composes the URL the canned query fetches for an interval and a
/// credential.
pub fn neo_url(start: &str, end: &str, key: &str) -> (r: String)
    ensures
        r@ == "https://api.nasa.gov/neo/rest/v1/feed?start_date="@ + start@ + "&end_date="@
            + end@ + "&api_key="@ + key@,
{
    let mut url = String::from_str("https://api.nasa.gov/neo/rest/v1/feed?start_date=");
    url.append(start);
    url.append("&end_date=");
    url.append(end);
    url.append("&api_key=");
    url.append(key);
    proof {
        assert(url@ =~= "https://api.nasa.gov/neo/rest/v1/feed?start_date="@ + start@
            + "&end_date="@ + end@ + "&api_key="@ + key@);
    }
    url
}

/// Fetches the feed from yesterday to today and returns the
/// pretty-printed response text; the URL fetched is exactly `neo_url` of
/// the two clock dates and the loaded credential.
pub fn neo<C: CredentialProvider, T: Transport>(provider: &C, transport: &T) -> (r: Result<
    String,
    ClientError,
>)
    ensures
        r is Err ==> crate::kernel::runtime_failure(r->Err_0),
        r is Ok ==> exists|b: Seq<char>| json_wf(b) && r->Ok_0@ == pretty_of(b),
{
    let start = crate::timing::one_day();
    let now = crate::timing::today();
    let key = match provider.load() {
        Ok(k) => k,
        Err(_) => {
            return Err(ClientError::MissingCredential);
        },
    };
    let url = neo_url(start.as_str(), now.as_str(), key.as_str());
    let res = match transport.fetch(url.as_str()) {
        Ok(b) => b,
        Err(TransportFault { status, body }) => {
            return Err(ClientError::TransportError { status, body });
        },
    };
    crate::pretty::to_string_pretty(res)
}

} // verus!
