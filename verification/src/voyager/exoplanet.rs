//! The canned exoplanet-archive query; the archive takes no credential.

use crate::json::{json_wf, pretty_of};
use crate::kernel::{ClientError, Transport, TransportFault};
use vstd::prelude::*;

verus! {

/// The URL the canned query fetches: the candidate-planet table, fully
/// fixed.
pub fn exoplanet_url() -> (r: &'static str)
    ensures
        r@ == "https://exoplanetarchive.ipac.caltech.edu/cgi-bin/nstedAPI/nph-nstedAPI?table=cumulative&where=koi_disposition%20like%20%27CANDIDATE%27&where=koi_period%3E300,koi_prad%3C2&order=koi_period&format=json"@,
{
    "https://exoplanetarchive.ipac.caltech.edu/cgi-bin/nstedAPI/nph-nstedAPI?table=cumulative&where=koi_disposition%20like%20%27CANDIDATE%27&where=koi_period%3E300,koi_prad%3C2&order=koi_period&format=json"
}

/// Fetches the candidate-planet table and returns the pretty-printed
/// response text; the URL fetched is exactly `exoplanet_url`.
pub fn exoplanet<T: Transport>(transport: &T) -> (r: Result<String, ClientError>)
    ensures
        r is Err ==> crate::kernel::runtime_failure(r->Err_0),
        r is Ok ==> exists|b: Seq<char>| json_wf(b) && r->Ok_0@ == pretty_of(b),
{
    let url = exoplanet_url();
    let res = match transport.fetch(url) {
        Ok(b) => b,
        Err(TransportFault { status, body }) => {
            return Err(ClientError::TransportError { status, body });
        },
    };
    crate::pretty::to_string_pretty(res)
}

} // verus!
