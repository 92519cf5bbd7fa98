//! Near Earth Object endpoints.

/// Retrieve a list of asteroids based on their closest approach date to Earth
pub mod feed;
/// Look up a specific asteroid based on its JPL small body (SPK-ID) ID
pub mod lookup;
