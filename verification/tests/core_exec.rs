//! The shared execution path: one client type per endpoint, one stubbed
//! provider and transport per scenario.

use nerva::clients::apod::{Apod, ApodParams};
use nerva::clients::donki::cme::{CMEParams, CME};
use nerva::clients::donki::flr::{FLRParams, FLR};
use nerva::clients::donki::hss::{HSSParams, HSS};
use nerva::clients::donki::ips::{IPSParams, IPS};
use nerva::clients::donki::mpc::{MPCParams, MPC};
use nerva::clients::donki::rbe::{RBEParams, RBE};
use nerva::clients::donki::sep::{SEPParams, SEP};
use nerva::clients::earth::{Earth, EarthParams};
use nerva::clients::epic::epic_client::EPIC;
use nerva::clients::epic::epic_parameters::EPICParams;
use nerva::clients::neo::feed::{NeoFeed, NeoFeedParams};
use nerva::kernel::{
    Aim, Client, ClientError, CredentialError, CredentialProvider, NervaClient, Params, Transport,
    TransportFault,
};
use std::cell::{Cell, RefCell};

struct FixedKey(&'static str);

impl CredentialProvider for FixedKey {
    fn load(&self) -> Result<String, CredentialError> {
        Ok(self.0.to_string())
    }
}

struct NoKey;

impl CredentialProvider for NoKey {
    fn load(&self) -> Result<String, CredentialError> {
        Err(CredentialError)
    }
}

struct StubTransport(&'static str);

impl Transport for StubTransport {
    fn fetch(&self, _url: &str) -> Result<String, TransportFault> {
        Ok(self.0.to_string())
    }
}

struct CountingTransport {
    calls: Cell<u32>,
    body: &'static str,
}

impl Transport for CountingTransport {
    fn fetch(&self, _url: &str) -> Result<String, TransportFault> {
        self.calls.set(self.calls.get() + 1);
        Ok(self.body.to_string())
    }
}

struct RecordingTransport {
    last_url: RefCell<Option<String>>,
    body: &'static str,
}

impl RecordingTransport {
    fn new(body: &'static str) -> Self {
        RecordingTransport { last_url: RefCell::new(None), body }
    }
}

impl Transport for RecordingTransport {
    fn fetch(&self, url: &str) -> Result<String, TransportFault> {
        *self.last_url.borrow_mut() = Some(url.to_string());
        Ok(self.body.to_string())
    }
}

struct FailingTransport {
    status: u16,
    body: &'static str,
}

impl Transport for FailingTransport {
    fn fetch(&self, _url: &str) -> Result<String, TransportFault> {
        Err(TransportFault { status: self.status, body: self.body.to_string() })
    }
}

#[test]
fn test_nerva() {
    let apod = Apod::default();
    let neofeed = NeoFeed::default();

    let nerva = NervaClient::new(neofeed, NeoFeedParams::default());
    let nerva = nerva.switch_prim::<Apod, ApodParams>(apod, ApodParams::default());
    let res = nerva.get(&FixedKey("DEMO_KEY"), &StubTransport("{\"title\":\"x\"}")).unwrap();
    println!("{:?}", res);
}

#[test]
fn readme2() {
    let aim = Aim::<Apod, ApodParams>::from(Apod::default());
    let apod: NervaClient<Apod, ApodParams> = NervaClient::from(aim);

    let aim = Aim::<NeoFeed, NeoFeedParams>::from(NeoFeed::default());
    let _neof = apod.switch(aim);
}

#[test]
fn test_cme() {
    let (cme, cmepara) = (CME::default(), CMEParams::default());
    let nerva: NervaClient<CME, CMEParams> = NervaClient::new(cme, cmepara);
    let resp = nerva.get(&FixedKey("DEMO_KEY"), &StubTransport("[]")).unwrap();
    println!("{:?}", resp);
}

#[test]
fn flr_test() {
    let (flr, flrpara) = (FLR::default(), FLRParams::default());
    let nerva: NervaClient<FLR, FLRParams> = NervaClient::new(flr, flrpara);
    let resp = nerva.get(&FixedKey("DEMO_KEY"), &StubTransport("[]")).unwrap();
    println!("{:?}", resp);
}

#[test]
fn test_hss() {
    let (hss, hsspara) = (HSS::default(), HSSParams::default());
    let nerva: NervaClient<HSS, HSSParams> = NervaClient::new(hss, hsspara);
    let resp = nerva.get(&FixedKey("DEMO_KEY"), &StubTransport("[]")).unwrap();
    println!("{:?}", resp);
}

#[test]
fn ips_test() {
    let (ips, ipspara) = (IPS::default(), IPSParams::default());
    let nerva: NervaClient<IPS, IPSParams> = NervaClient::new(ips, ipspara);
    let resp = nerva.get(&FixedKey("DEMO_KEY"), &StubTransport("[]"));
    println!("{:?}", resp);
}

#[test]
fn test_mpc() {
    let (mpc, mpcpara) = (MPC::default(), MPCParams::default());
    let nerva: NervaClient<MPC, MPCParams> = NervaClient::new(mpc, mpcpara);
    let resp = nerva.get(&FixedKey("DEMO_KEY"), &StubTransport("[]"));
    println!("{:?}", resp);
}

#[test]
fn test_rbe() {
    let (rbe, rbepara) = (RBE::default(), RBEParams::default());
    let nerva: NervaClient<RBE, RBEParams> = NervaClient::new(rbe, rbepara);
    let resp = nerva.get(&FixedKey("DEMO_KEY"), &StubTransport("[]"));
    println!("{:?}", resp);
}

#[test]
fn test_sep() {
    let (sep, seppara) = (SEP::default(), SEPParams::default());
    let nerva: NervaClient<SEP, SEPParams> = NervaClient::new(sep, seppara);
    let resp = nerva.get(&FixedKey("DEMO_KEY"), &StubTransport("[]"));
    println!("{:?}", resp);
}

#[test]
fn test_earth() {
    let (e, epara) = (Earth::default(), EarthParams::default());
    let _nerva: NervaClient<Earth, EarthParams> = NervaClient::new(e, epara);
}

#[test]
fn test_epic_client() {
    let (_epic, _epicpara) = (EPIC::default(), EPICParams::default());
}

#[test]
fn test_neo() {
    let (neof, neofpara) = (NeoFeed::default(), NeoFeedParams::default());
    let nerva: NervaClient<NeoFeed, NeoFeedParams> = NervaClient::new(neof, neofpara);
    let resp = nerva.get(&FixedKey("DEMO_KEY"), &StubTransport("{}")).unwrap();
    println!("{:?}", resp);
}

#[test]
fn empty_credential_never_reaches_transport() {
    let transport = CountingTransport { calls: Cell::new(0), body: "{}" };
    let nerva = NervaClient::new(Apod::default(), ApodParams::default());

    let r = nerva.get(&NoKey, &transport);
    assert!(matches!(r, Err(ClientError::MissingCredential)));
    assert_eq!(transport.calls.get(), 0);

    let r = nerva.get(&FixedKey(""), &transport);
    assert!(matches!(r, Err(ClientError::MissingCredential)));
    assert_eq!(transport.calls.get(), 0);
}

#[test]
fn non_success_status_is_a_transport_error() {
    let transport = FailingTransport { status: 429, body: "{\"error\":\"quota\"}" };
    let nerva = NervaClient::new(Apod::default(), ApodParams::default());
    let r = nerva.get(&FixedKey("DEMO_KEY"), &transport);
    match r {
        Err(ClientError::TransportError { status, body }) => {
            assert_eq!(status, 429);
            assert_eq!(body, "{\"error\":\"quota\"}");
        }
        other => panic!("expected a transport error, got {:?}", other),
    }
}

#[test]
fn html_body_is_a_decode_error() {
    let transport = StubTransport("<html>error</html>");
    let nerva = NervaClient::new(Apod::default(), ApodParams::default());
    let r = nerva.get(&FixedKey("DEMO_KEY"), &transport);
    match r {
        Err(ClientError::DecodeError { snippet }) => {
            assert_eq!(snippet, "<html>error</html>");
        }
        other => panic!("expected a decode error, got {:?}", other),
    }
}

#[test]
fn apod_date_binding_composes_expected_url() {
    let transport = RecordingTransport::new("{}");
    let mut aim = Aim::<Apod, ApodParams>::from(Apod::default());
    aim.set_params(ApodParams::Date("2022-01-07".to_string()));
    let nerva: NervaClient<Apod, ApodParams> = NervaClient::from(aim);
    nerva.get(&FixedKey("DEMO_KEY"), &transport).unwrap();
    assert_eq!(
        transport.last_url.borrow().as_deref(),
        Some("https://api.nasa.gov/planetary/apod?date=2022-01-07&api_key=DEMO_KEY")
    );
}

#[test]
fn neo_feed_start_date_appears_in_url() {
    let transport = RecordingTransport::new("{}");
    let nerva = NervaClient::new(
        NeoFeed::default(),
        NeoFeedParams::StartDate("2023-01-01".to_string()),
    );
    nerva.get(&FixedKey("DEMO_KEY"), &transport).unwrap();
    let url = transport.last_url.borrow().clone().unwrap();
    assert!(url.contains("start_date=2023-01-01"));
}

#[test]
fn with_params_leaves_no_trace_of_old_params() {
    let transport = RecordingTransport::new("{}");
    let aim = Aim::new(Apod::default(), ApodParams::Date("1999-12-31".to_string()));
    let aim = aim.with_params(ApodParams::Date("2022-01-07".to_string()));
    let nerva: NervaClient<Apod, ApodParams> = NervaClient::from(aim);
    nerva.get(&FixedKey("DEMO_KEY"), &transport).unwrap();
    let url = transport.last_url.borrow().clone().unwrap();
    assert!(!url.contains("1999-12-31"));
    assert_eq!(
        url,
        "https://api.nasa.gov/planetary/apod?date=2022-01-07&api_key=DEMO_KEY"
    );
}

#[test]
fn default_query_has_one_question_mark_and_one_key() {
    let transport = RecordingTransport::new("{}");
    let nerva = NervaClient::new(Apod::default(), ApodParams::default());
    nerva.get(&FixedKey("DEMO_KEY"), &transport).unwrap();
    let url = transport.last_url.borrow().clone().unwrap();
    assert_eq!(url.matches('?').count(), 1);
    assert_eq!(url.matches("api_key=").count(), 1);
    assert!(url.starts_with("https://api.nasa.gov/planetary/apod"));
}

#[test]
fn empty_base_url_is_an_invalid_endpoint() {
    let r = nerva::kernel::compose("", "date=2022-01-07", "DEMO_KEY");
    assert!(matches!(r, Err(ClientError::InvalidEndpoint)));
    let r = nerva::kernel::compose("", "", "");
    assert!(matches!(r, Err(ClientError::MissingCredential)));
}

#[test]
fn compose_with_empty_fragment_omits_separator() {
    let r = nerva::kernel::compose("https://api.nasa.gov/DONKI/GST", "", "DEMO_KEY").unwrap();
    assert_eq!(r, "https://api.nasa.gov/DONKI/GST?api_key=DEMO_KEY");
}

#[test]
fn render_is_pure() {
    let p = ApodParams::StartDate("2020-06-07".to_string());
    assert_eq!(p.render(), p.render());
    let q = EarthParams::default().lat("1.5".to_string()).cloud_score(true);
    assert_eq!(q.render(), q.render());
}

#[test]
fn compose_with_other_key_names() {
    let r = nerva::kernel::compose_with_key_name(
        "https://api.nasa.gov/insight_weather",
        "ver=1.0",
        "apiKey",
        "DEMO_KEY",
    )
    .unwrap();
    assert_eq!(r, "https://api.nasa.gov/insight_weather?ver=1.0&apiKey=DEMO_KEY");
    let r = nerva::kernel::compose_with_key_name("https://api.nasa.gov/x", "", "key", "k").unwrap();
    assert_eq!(r, "https://api.nasa.gov/x?key=k");
    let r = nerva::kernel::compose_with_key_name("", "a=b", "key", "k");
    assert!(matches!(r, Err(ClientError::InvalidEndpoint)));
    let r = nerva::kernel::compose_with_key_name("https://api.nasa.gov/x", "a=b", "key", "");
    assert!(matches!(r, Err(ClientError::MissingCredential)));
}
