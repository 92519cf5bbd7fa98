//! API client implementations, one module per endpoint.

/// Picture of the Day (APOD) client
pub mod apod;
/// Database of Notifications, Knowledge, Information (DONKI) clients
pub mod donki;
/// Earth Landsat Imagery Client
pub mod earth;
/// Earth Polychromatic Imaging Camera (EPIC) client
pub mod epic;
/// Near Earth Object (NEO) client
pub mod neo;

pub use apod::Apod;
pub use donki::cme::CME as Cme;
pub use donki::flr::FLR as Flr;
pub use donki::gst::GST as Gst;
pub use donki::hss::HSS as Hss;
pub use donki::ips::IPS as Ips;
pub use donki::mpc::MPC as Mpc;
pub use donki::rbe::RBE as Rbe;
pub use donki::sep::SEP as Sep;
pub use earth::Earth;
pub use epic::epic_client::EPIC as Epic;
pub use neo::feed::NeoFeed as NeoF;
pub use neo::lookup::NeoLookup as NeoL;
