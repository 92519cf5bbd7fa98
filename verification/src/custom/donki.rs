//! Query parameter renderings for the DONKI endpoints.

/// Coronal Mass Ejection (CME)
pub mod cme;
/// Solar Flare (FLR)
pub mod flr;
/// Geomagnetic Storm (GST)
pub mod gst;
/// Interplanetary Shock (IPS)
pub mod ips;
