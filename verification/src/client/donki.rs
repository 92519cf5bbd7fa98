//! DONKI clients with mode validation.

/// Client / Params for the Coronal Mass Ejection API
pub mod cme;
/// Client / Params for the Geomagnetic Storm API
pub mod gst;
/// Client / Params for the Interplanetary Shock API
pub mod ips;
