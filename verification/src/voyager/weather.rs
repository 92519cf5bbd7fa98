//! The canned space-weather queries: solar flares and geomagnetic storms.

use crate::json::{json_wf, pretty_of};
use crate::kernel::{ClientError, CredentialProvider, Transport, TransportFault};
use vstd::prelude::*;

verus! {

/// Composes the URL the solar-flare query fetches for an interval and a
/// credential.
pub fn sflare_url(start: &str, end: &str, key: &str) -> (r: String)
    ensures
        r@ == "https://api.nasa.gov/DONKI/FLR?startDate="@ + start@ + "&endDate="@ + end@
            + "&api_key="@ + key@,
{
    let mut url = String::from_str("https://api.nasa.gov/DONKI/FLR?startDate=");
    url.append(start);
    url.append("&endDate=");
    url.append(end);
    url.append("&api_key=");
    url.append(key);
    proof {
        assert(url@ =~= "https://api.nasa.gov/DONKI/FLR?startDate="@ + start@ + "&endDate="@
            + end@ + "&api_key="@ + key@);
    }
    url
}

/// Composes the URL the geomagnetic-storm query fetches for a credential;
/// the interval is fixed.
pub fn magnetic_url(key: &str) -> (r: String)
    ensures
        r@ == "https://api.nasa.gov/DONKI/GST?startDate=2021-01-01&endDate=2021-12-10&api_key="@
            + key@,
{
    let mut url = String::from_str(
        "https://api.nasa.gov/DONKI/GST?startDate=2021-01-01&endDate=2021-12-10&api_key=",
    );
    url.append(key);
    url
}

/// Fetches the solar flares of the last two weeks and returns the
/// pretty-printed response text; the URL fetched is exactly `sflare_url`
/// of the two clock dates and the loaded credential.
pub fn sflare<C: CredentialProvider, T: Transport>(provider: &C, transport: &T) -> (r: Result<
    String,
    ClientError,
>)
    ensures
        r is Err ==> crate::kernel::runtime_failure(r->Err_0),
        r is Ok ==> exists|b: Seq<char>| json_wf(b) && r->Ok_0@ == pretty_of(b),
{
    let now = crate::timing::today();
    let start = crate::timing::two_weeks();
    let key = match provider.load() {
        Ok(k) => k,
        Err(_) => {
            return Err(ClientError::MissingCredential);
        },
    };
    let url = sflare_url(start.as_str(), now.as_str(), key.as_str());
    let res = match transport.fetch(url.as_str()) {
        Ok(b) => b,
        Err(TransportFault { status, body }) => {
            return Err(ClientError::TransportError { status, body });
        },
    };
    crate::pretty::to_string_pretty(res)
}

/// Fetches the geomagnetic storms of a fixed interval and returns the
/// pretty-printed response text; the URL fetched is exactly
/// `magnetic_url` of the loaded credential.
pub fn magnetic<C: CredentialProvider, T: Transport>(provider: &C, transport: &T) -> (r: Result<
    String,
    ClientError,
>)
    ensures
        r is Err ==> crate::kernel::runtime_failure(r->Err_0),
        r is Ok ==> exists|b: Seq<char>| json_wf(b) && r->Ok_0@ == pretty_of(b),
{
    let key = match provider.load() {
        Ok(k) => k,
        Err(_) => {
            return Err(ClientError::MissingCredential);
        },
    };
    let url = magnetic_url(key.as_str());
    let res = match transport.fetch(url.as_str()) {
        Ok(b) => b,
        Err(TransportFault { status, body }) => {
            return Err(ClientError::TransportError { status, body });
        },
    };
    crate::pretty::to_string_pretty(res)
}

} // verus!
