//! A minimal Picture of the Day client: a bound base URL and the
//! parameter variants its queries accept.

use vstd::prelude::*;

verus! {

/// A client bound to the Picture of the Day base URL.
pub struct ApodClient {
    base_url: String,
}

impl ApodClient {
    /// The base URL this client is bound to.
    pub closed spec fn spec_base_url(&self) -> Seq<char> {
        self.base_url@
    }
}

impl Default for ApodClient {
    fn default() -> (r: Self)
        ensures
            r.spec_base_url() == "https://api.nasa.gov/planetary/apod"@,
    {
        Self { base_url: String::from_str("https://api.nasa.gov/planetary/apod") }
    }
}

/// Parameters for the APOD API
#[derive(Debug, PartialEq)]
pub enum ApodParams {
    /// `date=YYYY-MM-DD`
    Date(String),
    /// Ask for the high-definition image
    Hd(bool),
    /// The credential itself
    ApiKey(String),
}

} // verus!
