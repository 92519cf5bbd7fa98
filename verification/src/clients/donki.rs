//! Database of Notifications, Knowledge, Information (DONKI) endpoints.

/// DONKI Coronal Mass Ejection (CME) Endpoint
pub mod cme;
/// DONKI Solar Flare (FLR) Endpoint
pub mod flr;
/// DONKI Geomagnetic Storm (GST) Endpoint
pub mod gst;
/// DONKI High Speed Stream (HSS) Endpoint
pub mod hss;
/// DONKI Interplanetary Shock (IPS) Endpoint
pub mod ips;
/// DONKI Magnetopause Crossing (MPC) Endpoint
pub mod mpc;
/// DONKI Radiation Belt Enhancement (RBE) Endpoint
pub mod rbe;
/// DONKI Solar Energetic Particle (SEP) Endpoint
pub mod sep;
