//! The small command-line toolkit: argument parsing, canned queries and
//! date helpers. Key storage and terminal display live with the binary.

/// Canned Picture of the Day query
pub mod apod;
/// Command-line argument parsing
pub mod argparse;
/// Canned exoplanet-archive query
pub mod exoplanet;
/// Canned Near Earth Object query
pub mod neo;
/// Date helpers
pub mod timing;
/// JSON pretty-printing
pub mod to_pretty;
/// Canned space-weather queries
pub mod weather;
