//! The canned Picture of the Day query.

use crate::json::{json_wf, pretty_of};
use crate::kernel::{ClientError, CredentialProvider, Transport, TransportFault};
use vstd::prelude::*;

verus! {

/// Composes the URL the canned query fetches for a credential.
pub fn apod_url(key: &str) -> (r: String)
    ensures
        r@ == "https://api.nasa.gov/planetary/apod?api_key="@ + key@,
{
    let mut url = String::from_str("https://api.nasa.gov/planetary/apod?api_key=");
    url.append(key);
    url
}

/// Fetches today's Picture of the Day entry and returns the
/// pretty-printed response text; the URL fetched is exactly `apod_url` of
/// the loaded credential.
pub fn apod<C: CredentialProvider, T: Transport>(provider: &C, transport: &T) -> (r: Result<
    String,
    ClientError,
>)
    ensures
        r is Err ==> crate::kernel::runtime_failure(r->Err_0),
        r is Ok ==> exists|b: Seq<char>| json_wf(b) && r->Ok_0@ == pretty_of(b),
{
    let key = match provider.load() {
        Ok(k) => k,
        Err(_) => {
            return Err(ClientError::MissingCredential);
        },
    };
    let url = apod_url(key.as_str());
    let res = match transport.fetch(url.as_str()) {
        Ok(b) => b,
        Err(TransportFault { status, body }) => {
            return Err(ClientError::TransportError { status, body });
        },
    };
    crate::pretty::to_string_pretty(res)
}

} // verus!
