//! Earth Polychromatic Imaging Camera (EPIC) endpoint.

/// Parameters for the EPIC API
pub mod epic_parameters;
/// Earth Polychromatic Imaging Camera (EPIC) client
pub mod epic_client;
