//! The Geomagnetic Storm API behind the flat client shape.

use crate::kernel::{
    runtime_failure, ClientError, CredentialProvider, Params, Transport, TransportFault,
};
use vstd::prelude::*;

verus! {

/// Client for the Geomagnetic Storm API
pub struct GeoMagneticStormClient {}

/// Parameters for the Geomagnetic Storm API
pub type GSTParams = crate::prelude::DefaultParams;

impl GeoMagneticStormClient {
    /// Create a new client
    pub fn new() -> (r: Self)
        ensures
            r == (GeoMagneticStormClient {  }),
    {
        Self {  }
    }

    /// Queries the endpoint and returns the raw body text.
    pub fn get<C: CredentialProvider, T: Transport>(
        &self,
        provider: &C,
        transport: &T,
        params: GSTParams,
    ) -> (r: Result<String, ClientError>)
        ensures
            r is Err ==> runtime_failure(r->Err_0),
    {
        let key = match provider.load() {
            Ok(k) => k,
            Err(_) => {
                return Err(ClientError::MissingCredential);
            },
        };
        let url = crate::apis::flat_url(
            "https://api.nasa.gov/DONKI/GST?",
            params.render().as_str(),
            key.as_str(),
        );
        match transport.fetch(url.as_str()) {
            Ok(body) => Ok(body),
            Err(TransportFault { status, body }) => Err(
                ClientError::TransportError { status, body },
            ),
        }
    }
}

impl Default for GeoMagneticStormClient {
    fn default() -> (r: Self)
        ensures
            r == (GeoMagneticStormClient {  }),
    {
        Self {  }
    }
}

} // verus!
