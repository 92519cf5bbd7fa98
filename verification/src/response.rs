//! The decoded response value handed back to callers.

use crate::json::json_wf;
use crate::kernel::ClientError;
use vstd::prelude::*;

verus! {

/// A decoded JSON response.
#[derive(Debug, Clone)]
pub struct Response {
    json: serde_json::Value,
}

impl Response {
    /// The JSON tree this response carries.
    pub closed spec fn spec_json(&self) -> serde_json::Value {
        self.json
    }

    /// Wraps a decoded JSON tree.
    pub fn new(json: serde_json::Value) -> (r: Self)
        ensures
            r.spec_json() == json,
    {
        Response { json }
    }

    /// Serializes the carried tree to bytes.
    pub fn bytedump(&self) -> (r: Result<Vec<u8>, ClientError>) {
        match crate::json::value_to_bytes(&self.json) {
            Some(bytes) => Ok(bytes),
            None => Err(ClientError::DecodeError { snippet: String::new() }),
        }
    }

    /// A copy of the carried tree.
    pub fn json(&self) -> (r: Result<serde_json::Value, ClientError>)
        ensures
            r is Ok,
            r->Ok_0 == self.spec_json(),
    {
        let dump = self.json.clone();
        Ok(dump)
    }
}

/// Handles responses: parses body text into a `Response`, failing with
/// `DecodeError` (carrying the text) exactly when it is not well-formed
/// JSON.
pub fn into_response(res: &str) -> (r: Result<Response, ClientError>)
    ensures
        r is Ok <==> json_wf(res@),
        r is Err ==> (r->Err_0 matches ClientError::DecodeError { snippet } && snippet@ == res@),
{
    match crate::json::parse_value(res) {
        Some(v) => Ok(Response::new(v)),
        None => Err(ClientError::DecodeError { snippet: String::from_str(res) }),
    }
}

} // verus!
