//! The bare-interface and mode-validating clients, and the canned
//! toolkit queries.

use nerva::client::donki::cme::{CMEParams, CatalogChoices, CmeError, CoronalMassEjectionClient};
use nerva::client::donki::gst::GeoMagneticStormClient;
use nerva::client::donki::ips::{IPSParams, InterplanetaryShockClient, LocChoice};
use nerva::client::neo::{NeoClient, NeoMode, NeoParams};
use nerva::client::{BaseBind, Client, ClientBind, Interface};
use nerva::kernel::{ClientError, CredentialError, CredentialProvider, Transport, TransportFault};
use nerva::prelude::DefaultParams;
use std::cell::RefCell;

struct Down;

impl Transport for Down {
    fn fetch(&self, _url: &str) -> Result<String, TransportFault> {
        Err(TransportFault { status: 403, body: "denied".to_string() })
    }
}

struct OneKey;

impl CredentialProvider for OneKey {
    fn load(&self) -> Result<String, CredentialError> {
        Ok("DEMO_KEY".to_string())
    }
}

struct UrlLog {
    last_url: RefCell<Option<String>>,
}

impl UrlLog {
    fn new() -> Self {
        UrlLog { last_url: RefCell::new(None) }
    }

    fn url(&self) -> String {
        self.last_url.borrow().clone().unwrap()
    }
}

impl Transport for UrlLog {
    fn fetch(&self, url: &str) -> Result<String, TransportFault> {
        *self.last_url.borrow_mut() = Some(url.to_string());
        Ok("{}".to_string())
    }
}

#[test]
fn client_bind_composes_query_strings() {
    let base = BaseBind::new("https://api.nasa.gov/planetary/apod?".to_string());
    let mut bind = ClientBind::new(base, None, None);
    assert_eq!(bind.make_query_str("date=2022-01-07"),
        "https://api.nasa.gov/planetary/apod?date=2022-01-07");
    assert_eq!(bind.base().url(), "https://api.nasa.gov/planetary/apod?");
    bind.new_base(BaseBind::new("lolwut.com".to_string()));
    assert_eq!(bind.base().url(), "lolwut.com");
    bind.set_target(Some("apod".to_string()));
}

#[test]
fn bare_interfaces_render_query_strings() {
    let apod = nerva::custom::apod::Apod {};
    assert_eq!(apod.query(nerva::custom::apod::QueryParams::Date("2020-01-01".to_string())),
        "date=2020-01-01");
    assert_eq!(apod.query(nerva::custom::apod::QueryParams::Thumbs(true)), "thumbs=true");
    let neo = nerva::custom::neo::Neo {};
    assert_eq!(neo.query(nerva::custom::neo::QueryParams::ApiKey("k".to_string())), "api_key=k");
    let cme = nerva::custom::donki::cme::Cme {};
    assert_eq!(cme.query(nerva::custom::donki::cme::QueryParams::Speed(500)), "speed=500");
    assert_eq!(
        cme.query(nerva::custom::donki::cme::QueryParams::MostAccurateOnly(false)),
        "mostAccurateOnly=false"
    );
    let gst = nerva::custom::donki::gst::Gst {};
    assert_eq!(
        gst.query(nerva::custom::donki::gst::QueryParams::StartDate("2023-01-01".to_string())),
        "startDate=2023-01-01"
    );
    let ips = nerva::custom::donki::ips::Ips {};
    assert_eq!(
        ips.query(nerva::custom::donki::ips::QueryParams::Location("EARTH".to_string())),
        "location=EARTH"
    );
    let flr = nerva::custom::donki::flr::Flr {};
    assert_eq!(
        flr.query(nerva::custom::donki::flr::QueryParams::EndDate("x".to_string())),
        "endDate=x"
    );
    let insight = nerva::custom::insight::Insight {};
    assert_eq!(
        insight.query(nerva::custom::insight::QueryParams::Version("1.0".to_string())),
        "version=1.0"
    );
}

#[test]
fn genelab_prefixes_its_mode() {
    let lab = nerva::custom::genelab::GeneLab::new(nerva::custom::genelab::Mode::File);
    assert_eq!(lab.make_base(), "https://genelab-data.ndc.nasa.gov/genelab/data/glds/file");
    assert_eq!(
        lab.query(nerva::custom::genelab::QueryParams::GldsStudyIds("87-95".to_string())),
        "file?gldsStudyIds=87-95"
    );
    let lab = nerva::custom::genelab::GeneLab::new(nerva::custom::genelab::Mode::Meta);
    assert_eq!(
        lab.query(nerva::custom::genelab::QueryParams::CurrPageNumber(2)),
        "meta?currPageNumber=2"
    );
    let bind = nerva::custom::genelab::GeneLab::start(BaseBind::new("base".to_string()));
    assert_eq!(bind.base().url(), "base");
}

#[test]
fn neo_modes_pick_their_path() {
    let log = UrlLog::new();
    let feed = NeoClient::default();
    feed.get(&OneKey, &log, NeoParams::DateRange {
        start: "2022-01-01".to_string(),
        end: "2022-01-08".to_string(),
    })
    .unwrap();
    assert_eq!(
        log.url(),
        "https://api.nasa.gov/neo/rest/v1/feed?start_date=2022-01-01&end_date=2022-01-08&api_key=DEMO_KEY"
    );

    let lookup = NeoClient::new(NeoMode::LOOKUP);
    lookup.get(&OneKey, &log, NeoParams::AsteroidId("3542519".to_string())).unwrap();
    assert_eq!(
        log.url(),
        "https://api.nasa.gov/neo/rest/v1/neo/3542519&api_key=DEMO_KEY"
    );

    let browse = NeoClient::new(NeoMode::BROWSE);
    browse.get(&OneKey, &log, NeoParams::Browse).unwrap();
    assert_eq!(
        log.url(),
        "https://api.nasa.gov/neo/rest/v1/browse/browse&api_key=DEMO_KEY"
    );
}

#[test]
fn cme_basic_mode_rejects_analysis_parameters() {
    let log = UrlLog::new();
    let basic = CoronalMassEjectionClient::default();
    let r = basic.get(&OneKey, &log, CMEParams::Speed(500));
    assert_eq!(r, Err(CmeError::InvalidParameter));
    let r = basic.get(&OneKey, &log, CMEParams::Catalog(CatalogChoices::SWRC_CATALOG));
    assert_eq!(r, Err(CmeError::InvalidParameter));
    assert!(log.last_url.borrow().is_none());

    basic.get(&OneKey, &log, CMEParams::StartDate("2022-01-01".to_string())).unwrap();
    assert_eq!(
        log.url(),
        "https://api.nasa.gov/DONKI/CME?startDate=2022-01-01&api_key=DEMO_KEY"
    );

    let analysis = CoronalMassEjectionClient::new(true);
    analysis.get(&OneKey, &log, CMEParams::HalfAngle(30)).unwrap();
    assert_eq!(
        log.url(),
        "https://api.nasa.gov/DONKI/CMEAnalysis?halfAngle=30&api_key=DEMO_KEY"
    );
}

#[test]
fn gst_and_ips_flat_clients_compose_urls() {
    let log = UrlLog::new();
    let gst = GeoMagneticStormClient::new();
    gst.get(&OneKey, &log, DefaultParams::StartDate("2023-01-01".to_string())).unwrap();
    assert_eq!(
        log.url(),
        "https://api.nasa.gov/DONKI/GST?startDate=2023-01-01&api_key=DEMO_KEY"
    );

    let ips = InterplanetaryShockClient::new();
    ips.get(&OneKey, &log, IPSParams::Location(LocChoice::STEREO_A)).unwrap();
    assert_eq!(
        log.url(),
        "https://api.nasa.gov/DONKI/IPS?location=STEREO_A&api_key=DEMO_KEY"
    );
}

#[test]
fn canned_toolkit_queries_compose_and_decode() {
    let log = UrlLog::new();
    let pretty = nerva::voyager::apod::apod(&OneKey, &log).unwrap();
    assert_eq!(pretty, "{}");
    assert_eq!(log.url(), "https://api.nasa.gov/planetary/apod?api_key=DEMO_KEY");

    nerva::voyager::neo::neo(&OneKey, &log).unwrap();
    assert!(log.url().starts_with("https://api.nasa.gov/neo/rest/v1/feed?start_date="));

    nerva::voyager::weather::sflare(&OneKey, &log).unwrap();
    assert!(log.url().starts_with("https://api.nasa.gov/DONKI/FLR?startDate="));

    nerva::voyager::weather::magnetic(&OneKey, &log).unwrap();
    assert_eq!(
        log.url(),
        "https://api.nasa.gov/DONKI/GST?startDate=2021-01-01&endDate=2021-12-10&api_key=DEMO_KEY"
    );

    nerva::voyager::exoplanet::exoplanet(&log).unwrap();
    assert!(log.url().starts_with("https://exoplanetarchive.ipac.caltech.edu/"));
}

#[test]
fn toolkit_argparse_recognises_commands() {
    let args = vec!["voyager".to_string(), "apod".to_string()];
    assert_eq!(nerva::voyager::argparse::argparse(&args), Ok(nerva::voyager::argparse::Arg::APOD));
    let args = vec!["voyager".to_string(), "flare".to_string()];
    assert_eq!(
        nerva::voyager::argparse::argparse(&args),
        Ok(nerva::voyager::argparse::Arg::SFLARE)
    );
    let args = vec!["voyager".to_string(), "set".to_string(), "key".to_string()];
    assert_eq!(
        nerva::voyager::argparse::argparse(&args),
        Ok(nerva::voyager::argparse::Arg::SETKEY)
    );
    let args = vec!["voyager".to_string(), "warp".to_string()];
    assert_eq!(
        nerva::voyager::argparse::argparse(&args),
        Ok(nerva::voyager::argparse::Arg::BADCOMMAND)
    );
}

#[test]
fn toolkit_one_month_steps_only_the_month_field() {
    let a = nerva::voyager::timing::one_month();
    assert_eq!(a.split('-').count(), 3);
    let b = nerva::voyager::timing::today();
    assert_eq!(b, nerva::timing::today());
}

#[test]
fn flat_transport_failure_surfaces_status() {
    let r = nerva::voyager::apod::apod(&OneKey, &Down);
    match r {
        Err(ClientError::TransportError { status, body }) => {
            assert_eq!(status, 403);
            assert_eq!(body, "denied");
        }
        other => panic!("expected a transport error, got {:?}", other),
    }
}
