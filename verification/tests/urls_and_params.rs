//! Exact rendering of parameters, composed URLs of the flat clients, and
//! the date helpers.

use nerva::clients::donki::gst::GSTParams;
use nerva::clients::earth::EarthParams;
use nerva::clients::epic::epic_client::EPIC;
use nerva::clients::epic::epic_parameters::EPICParams;
use nerva::kernel::{CredentialError, CredentialProvider, Params, Transport, TransportFault};
use nerva::apis::ApodParams as FlatApodParams;
use nerva::argparse::{argparse, Arg};
use nerva::clients::apod::{Apod, ApodParams};
use nerva::clients::neo::lookup::NeoLookupParams;
use nerva::prelude::DefaultParams;
use std::cell::RefCell;

struct UrlTrap {
    last_url: RefCell<Option<String>>,
}

impl UrlTrap {
    fn new() -> Self {
        UrlTrap { last_url: RefCell::new(None) }
    }

    fn url(&self) -> String {
        self.last_url.borrow().clone().unwrap()
    }
}

impl Transport for UrlTrap {
    fn fetch(&self, url: &str) -> Result<String, TransportFault> {
        *self.last_url.borrow_mut() = Some(url.to_string());
        Ok("{}".to_string())
    }
}

struct Key(&'static str);

impl CredentialProvider for Key {
    fn load(&self) -> Result<String, CredentialError> {
        Ok(self.0.to_string())
    }
}

#[test]
fn apod_params_render_exactly() {
    assert_eq!(ApodParams::Date("2022-01-07".to_string()).render(), "date=2022-01-07");
    let _ = &Apod {};
    assert_eq!(ApodParams::StartDate("a".to_string()).render(), "start_date=a");
    assert_eq!(ApodParams::EndDate("b".to_string()).render(), "end_date=b");
    assert_eq!(ApodParams::Count(42).render(), "count=42");
    assert_eq!(ApodParams::Thumbs(true).render(), "thumbs=true");
    assert_eq!(ApodParams::Thumbs(false).render(), "thumbs=false");
    assert_eq!(ApodParams::default().render(), "date=2020-01-01");
}

#[test]
fn donki_params_render_exactly() {
    assert_eq!(DefaultParams::StartDate("2022-01-01".to_string()).render(), "startDate=2022-01-01");
    assert_eq!(DefaultParams::EndDate("2022-02-01".to_string()).render(), "endDate=2022-02-01");
    assert_eq!(DefaultParams::default().render(), "startDate=2022-01-01");
    assert_eq!(GSTParams::default().render(), "");
    assert_eq!(GSTParams::StartDate("x".to_string()).render(), "startDate=x");
}

#[test]
fn earth_params_render_all_fields() {
    let p = EarthParams::default();
    assert_eq!(p.render(), "lat=0&lon=0");
    let p = EarthParams::default()
        .lat("1.5".to_string())
        .lon("100.75".to_string())
        .dim("0.025".to_string())
        .date("2018-01-01".to_string())
        .cloud_score(true);
    assert_eq!(p.render(), "lat=1.5&lon=100.75&dim=0.025&date=2018-01-01&cloud_score=true");
}

#[test]
fn epic_point_has_its_own_url_shape() {
    let epic = EPIC::new();
    assert_eq!(
        epic.point(EPICParams::default()),
        "https://api.nasa.gov/EPIC/api/natural/all?"
    );
    assert_eq!(EPICParams::NaturalDate("2023-01-01".to_string()).render(), "natural/date/2023-01-01");
    assert_eq!(EPICParams::EnhancedAvailable.render(), "enhanced/available");
}

#[test]
fn neo_lookup_default_targets_known_asteroid() {
    assert_eq!(NeoLookupParams::default().render(), "asteroid_id=2021277");
    assert_eq!(NeoLookupParams::AsteroidID("99".to_string()).render(), "asteroid_id=99");
}

#[test]
fn point_builds_base_and_fragment() {
    let url = nerva::kernel::point::<Apod, ApodParams>(ApodParams::Date("2020-01-01".to_string()));
    assert_eq!(url, "https://api.nasa.gov/planetary/apod?date=2020-01-01");
    let url = nerva::kernel::point_slash::<Apod, ApodParams>(
        ApodParams::Date("2020-01-01".to_string()),
    );
    assert_eq!(url, "https://api.nasa.gov/planetary/apod/date=2020-01-01");
}

#[test]
fn concat_query_appends_credential() {
    let url = nerva::kernel::concat_query(
        "https://api.nasa.gov/DONKI/CME",
        "startDate=2022-01-01",
        &Key("DEMO_KEY"),
    )
    .unwrap();
    assert_eq!(
        url,
        "https://api.nasa.gov/DONKI/CME?startDate=2022-01-01&api_key=DEMO_KEY"
    );
}

#[test]
fn solar_flare_query_url_is_exact() {
    let base = nerva::donki::SolarFlare::new();
    assert_eq!(
        base.query_url("2022-01-01", "2022-01-07", "DEMO_KEY"),
        "https://api.nasa.gov/DONKI/FLR?startDate=2022-01-01&endDate=2022-01-07&api_key=DEMO_KEY"
    );
}

#[test]
fn try_solar_style_query_round_trips() {
    let trap = UrlTrap::new();
    let base = nerva::donki::SolarFlare::new();
    let start = "2018-01-01".to_string();
    let end = nerva::timing::today();
    let pretty = base.query(&Key("DEMO_KEY"), &trap, start, end).unwrap();
    assert_eq!(pretty, "{}");
    assert!(trap.url().starts_with("https://api.nasa.gov/DONKI/FLR?startDate=2018-01-01&endDate="));
}

#[test]
fn try_magnetic() {
    let trap = UrlTrap::new();
    let start = String::from("2019-01-01");
    let end = String::from("2022-01-01");
    let base = nerva::donki::GeoMagnetic::new();
    base.query(&Key("DEMO_KEY"), &trap, start, end).unwrap();
    assert_eq!(
        trap.url(),
        "https://api.nasa.gov/DONKI/GST?startDate=2019-01-01&endDate=2022-01-01&api_key=DEMO_KEY"
    );
}

#[test]
fn try_cme() {
    let trap = UrlTrap::new();
    let base = nerva::donki::CoronalMassEjection::new();
    let start = String::from("2022-01-01");
    let end = nerva::timing::today();
    base.query(&Key("DEMO_KEY"), &trap, start, end).unwrap();
    assert!(trap.url().starts_with("https://api.nasa.gov/DONKI/CME?startDate=2022-01-01"));
}

#[test]
fn sep_query_spells_both_bounds() {
    let trap = UrlTrap::new();
    let base = nerva::donki::SolarEnergeticParticle::new();
    base.query(&Key("k1"), &trap, "a".to_string(), "b".to_string()).unwrap();
    assert_eq!(
        trap.url(),
        "https://api.nasa.gov/DONKI/SEP?startDate=a&endDate=b&api_key=k1"
    );
}

#[test]
fn try_neo() {
    let trap = UrlTrap::new();
    let start = String::from("2022-01-01");
    let end = nerva::timing::today();
    let base = nerva::neo::Neo::new();
    base.query(&Key("DEMO_KEY"), &trap, start, end).unwrap();
    assert!(trap.url().starts_with(
        "https://api.nasa.gov/neo/rest/v1/feed?start_date=2022-01-01&endDate="
    ));
}

#[test]
fn try_insight() {
    let trap = UrlTrap::new();
    let base = nerva::insight::InsightWeather::new();
    base.query(&Key("DEMO_KEY"), &trap).unwrap();
    assert_eq!(
        trap.url(),
        "https://api.nasa.gov/insight_weather/?api_key=DEMO_KEY&feedtype=json&ver=1.0"
    );
}

#[test]
fn try_tech_transfer_patent() {
    let trap = UrlTrap::new();
    let base = nerva::tech::TechTransferClient::new();
    let query = String::from("engine");
    base.query(&Key("DEMO_KEY"), &trap, query).unwrap();
    assert_eq!(
        trap.url(),
        "https://api.nasa.gov/techtransfer/patent/?engine&api_key=DEMO_KEY"
    );
}

#[test]
fn try_tech_transfer_software() {
    let trap = UrlTrap::new();
    let mut base = nerva::tech::TechTransferClient::new();
    base.switch(nerva::tech::Collections::Software).unwrap();
    let query = String::from("engine");
    base.query(&Key("DEMO_KEY"), &trap, query).unwrap();
    assert_eq!(
        trap.url(),
        "https://api.nasa.gov/techtransfer/software/?engine&api_key=DEMO_KEY"
    );
}

#[test]
fn try_fireball() {
    let trap = UrlTrap::new();
    let mut base = nerva::jpl::FireballClient::new();
    base.limit(1);
    base.query(&trap).unwrap();
    assert_eq!(trap.url(), "https://ssd-api.jpl.nasa.gov/fireball.api?limit=1");
}

#[test]
fn fireball_without_limit_queries_bare_url() {
    let trap = UrlTrap::new();
    let base = nerva::jpl::FireballClient::new();
    base.query(&trap).unwrap();
    assert_eq!(trap.url(), "https://ssd-api.jpl.nasa.gov/fireball.api");
}

#[test]
fn try_default_mission_design() {
    let trap = UrlTrap::new();
    let base = nerva::jpl::MissionDesign::new();
    base.query(&trap, nerva::jpl::QueryType::DES, "2012%20TC4").unwrap();
    assert_eq!(trap.url(), "https://ssd-api.jpl.nasa.gov/mdesign.api?des=2012%20TC4");
}

#[test]
fn try_mission_design_accessible_lim_crit_year() {
    let trap = UrlTrap::new();
    let mut base = nerva::jpl::MissionDesignAccessible::new();
    base.limit(10);
    base.crit(1);
    base.year(String::from("2025,2026,2027,2028,2029"));
    base.lim_crit_year(&trap).unwrap();
    assert_eq!(
        trap.url(),
        "https://ssd-api.jpl.nasa.gov/mdesign.api?lim=10&crit=1&year=2025,2026,2027,2028,2029"
    );
}

#[test]
fn try_mission_design_map_mode() {
    let trap = UrlTrap::new();
    let mut base = nerva::jpl::MissionDesignMap::new();
    base.designation("2012%20TC4");
    base.mjd(58490);
    base.span(3652);
    base.tof(10, 36);
    base.step(2);
    base.query(&trap).unwrap();
    assert_eq!(
        trap.url(),
        "https://ssd-api.jpl.nasa.gov/mdesign.api?des=2012%20TC4&mjd0=58490&span=3652&tof-min=10&tof-max=36&step=2"
    );
}

#[test]
fn flat_apod_client_returns_raw_body() {
    let trap = UrlTrap::new();
    let apod = nerva::apis::ApodClient {};
    let body = apod
        .get(
            &Key("DEMO_KEY"),
            &trap,
            FlatApodParams::Date("2015-06-07".to_string()),
        )
        .unwrap();
    assert_eq!(body, "{}");
    assert_eq!(
        trap.url(),
        "https://api.nasa.gov/planetary/apod?date=2015-06-07&api_key=DEMO_KEY"
    );
}

#[test]
fn flat_neo_client_composes_feed_url() {
    let trap = UrlTrap::new();
    let neo = nerva::apis::NeoClient {};
    neo.get(
        &Key("DEMO_KEY"),
        &trap,
        nerva::apis::NeoParams::StartDate("2022-01-01".to_string()),
    )
    .unwrap();
    assert_eq!(
        trap.url(),
        "https://api.nasa.gov/neo/rest/v1/feed?start_date=2022-01-01&api_key=DEMO_KEY"
    );
}

#[test]
fn decimal_rendering_is_exact() {
    assert_eq!(nerva::text::u64_to_string(0), "0");
    assert_eq!(nerva::text::u64_to_string(7), "7");
    assert_eq!(nerva::text::u64_to_string(1234567890), "1234567890");
    assert_eq!(nerva::text::i64_to_string(-42), "-42");
    assert_eq!(nerva::text::i64_to_string(0), "0");
}

#[test]
fn timing_renders_dashed_dates() {
    let today = nerva::timing::today();
    assert_eq!(today.matches('-').count(), 2);
    let one_day = nerva::timing::one_day();
    assert_eq!(one_day.split('-').count(), 3);
    let _ = nerva::timing::one_week();
    let _ = nerva::timing::two_weeks();
    let _ = nerva::timing::one_month();
}

#[test]
fn argparse_recognises_commands() {
    let args = vec!["voyager".to_string()];
    assert_eq!(argparse(&args), Ok(Arg::HELP));
    let args = vec!["voyager".to_string(), "set".to_string(), "key".to_string()];
    assert_eq!(argparse(&args), Ok(Arg::SETKEY));
    let args = vec!["voyager".to_string(), "get".to_string(), "key".to_string()];
    assert_eq!(argparse(&args), Ok(Arg::GETKEY));
    let args = vec!["voyager".to_string(), "help".to_string()];
    assert_eq!(argparse(&args), Ok(Arg::HELP));
    let args = vec!["voyager".to_string(), "launch".to_string()];
    assert_eq!(argparse(&args), Ok(Arg::BADCOMMAND));
}

#[test]
fn mission_design_builders_compose_exact_urls() {
    let mut map = nerva::jpl::MissionDesignMap::new();
    map.designation("2012%20TC4");
    map.mjd(58490);
    map.span(3652);
    map.tof(10, 36);
    map.step(2);
    assert_eq!(
        map.query_url(),
        "https://ssd-api.jpl.nasa.gov/mdesign.api?des=2012%20TC4&mjd0=58490&span=3652&tof-min=10&tof-max=36&step=2"
    );

    let mut acc = nerva::jpl::MissionDesignAccessible::new();
    acc.limit(10);
    acc.crit(1);
    acc.year("2025,2026".to_string());
    assert_eq!(
        acc.lim_crit_year_url(),
        "https://ssd-api.jpl.nasa.gov/mdesign.api?lim=10&crit=1&year=2025,2026"
    );

    let q = nerva::jpl::MissionDesign::new();
    assert_eq!(
        q.query_url(&nerva::jpl::QueryType::SSTR, "atira"),
        "https://ssd-api.jpl.nasa.gov/mdesign.api?sstr=atira"
    );

    let mut fb = nerva::jpl::FireballClient::new();
    assert_eq!(fb.query_url(), "https://ssd-api.jpl.nasa.gov/fireball.api");
    fb.limit(7);
    assert_eq!(fb.query_url(), "https://ssd-api.jpl.nasa.gov/fireball.api?limit=7");
}

#[test]
fn tech_and_neo_builders_compose_exact_urls() {
    let tech = nerva::tech::TechTransferClient::new();
    assert_eq!(
        tech.query_url("engine", "DEMO_KEY"),
        "https://api.nasa.gov/techtransfer/patent/?engine&api_key=DEMO_KEY"
    );

    let lookup = nerva::client::neo::NeoClient::new(nerva::client::neo::NeoMode::LOOKUP);
    assert_eq!(
        lookup.query_url(
            &nerva::client::neo::NeoParams::AsteroidId("3542519".to_string()),
            "DEMO_KEY",
        ),
        "https://api.nasa.gov/neo/rest/v1/neo/3542519&api_key=DEMO_KEY"
    );

    let cme = nerva::client::donki::cme::CoronalMassEjectionClient::new(true);
    assert_eq!(
        cme.query_url(&nerva::client::donki::cme::CMEParams::HalfAngle(30), "DEMO_KEY"),
        "https://api.nasa.gov/DONKI/CMEAnalysis?halfAngle=30&api_key=DEMO_KEY"
    );
}

#[test]
fn canned_query_builders_compose_exact_urls() {
    assert_eq!(
        nerva::voyager::apod::apod_url("DEMO_KEY"),
        "https://api.nasa.gov/planetary/apod?api_key=DEMO_KEY"
    );
    assert_eq!(
        nerva::voyager::neo::neo_url("2022-01-01", "2022-01-02", "k"),
        "https://api.nasa.gov/neo/rest/v1/feed?start_date=2022-01-01&end_date=2022-01-02&api_key=k"
    );
    assert_eq!(
        nerva::voyager::weather::sflare_url("a", "b", "k"),
        "https://api.nasa.gov/DONKI/FLR?startDate=a&endDate=b&api_key=k"
    );
    assert_eq!(
        nerva::voyager::weather::magnetic_url("k"),
        "https://api.nasa.gov/DONKI/GST?startDate=2021-01-01&endDate=2021-12-10&api_key=k"
    );
    assert!(nerva::voyager::exoplanet::exoplanet_url()
        .starts_with("https://exoplanetarchive.ipac.caltech.edu/"));
}

#[test]
fn concat_query_rejects_what_the_composer_rejects() {
    let r = nerva::kernel::concat_query("https://api.nasa.gov/DONKI/CME", "a=b", &Key(""));
    assert!(matches!(r, Err(nerva::kernel::ClientError::MissingCredential)));
    let r = nerva::kernel::concat_query("", "a=b", &Key("DEMO_KEY"));
    assert!(matches!(r, Err(nerva::kernel::ClientError::InvalidEndpoint)));
}

#[test]
fn flat_apod_default_is_a_clock_date() {
    let p = FlatApodParams::default();
    let frag = p.fragment();
    assert!(frag.starts_with("date="));
    assert_eq!(frag.matches('-').count(), 2);
    let q = nerva::client::apod::ApodParams::default();
    assert!(q.fragment().starts_with("date="));
}
