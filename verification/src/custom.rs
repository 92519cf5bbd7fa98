//! Per-endpoint implementations of the bare `Interface`: each renders its
//! query parameters to a query string.

/// Picture of the Day
pub mod apod;
/// DONKI endpoints
pub mod donki;
/// GeneLab data repository
pub mod genelab;
/// InSight Mars weather
pub mod insight;
/// Near Earth Objects
pub mod neo;
