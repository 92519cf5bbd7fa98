//! JSON pretty-printing for human display.

use vstd::prelude::*;

verus! {

/// Converts a JSON text blob into its pretty-printed form.
///
/// Relies on serde_json::from_str::<serde_json::Value> and
/// serde_json::to_string_pretty: together they succeed exactly on
/// well-formed JSON, and the result depends on the text alone.
#[verifier::external_body]
pub fn to_string_pretty(res: String) -> (r: Result<String, crate::kernel::ClientError>)
    ensures
        r is Ok <==> crate::json::json_wf(res@),
        r is Ok ==> r->Ok_0@ == crate::json::pretty_of(res@),
        r is Err ==> r->Err_0 == (crate::kernel::ClientError::DecodeError { snippet: res }),
{
    let json: serde_json::Value = match serde_json::from_str(&res) {
        Ok(v) => v,
        Err(_) => {
            return Err(crate::kernel::ClientError::DecodeError { snippet: res });
        },
    };
    match serde_json::to_string_pretty(&json) {
        Ok(p) => Ok(p),
        Err(_) => Err(crate::kernel::ClientError::DecodeError { snippet: res }),
    }
}

} // verus!
