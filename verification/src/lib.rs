//! Typed clients for a family of public JSON-over-HTTP endpoints.
//!
//! Every endpoint is described by a base URL and an enumerated parameter
//! set; one shared execution path renders the parameters, injects the
//! API-key credential, performs the transport call and decodes the JSON
//! response.


pub mod apis;
pub mod apod;
pub mod argparse;
pub mod client;
pub mod clients;
pub mod custom;
pub mod donki;
pub mod filter;
pub mod filters;
pub mod insight;
pub mod jpl;
pub mod json;
pub mod kernel;
pub mod laws;
pub mod neo;
pub mod prelude;
pub mod pretty;
pub mod response;
pub mod tech;
pub mod text;
pub mod timing;
pub mod voyager;
