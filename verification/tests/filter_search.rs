//! The two response filters: shallow lookup and deep search.

use nerva::clients::apod::{Apod, ApodParams};
use nerva::clients::donki::flr::{FLRParams, FLR};
use nerva::kernel::{Client, ClientError, CredentialError, CredentialProvider, NervaClient,
    Transport, TransportFault};

struct DemoKey;

impl CredentialProvider for DemoKey {
    fn load(&self) -> Result<String, CredentialError> {
        Ok("DEMO_KEY".to_string())
    }
}

struct BodyTransport(&'static str);

impl Transport for BodyTransport {
    fn fetch(&self, _url: &str) -> Result<String, TransportFault> {
        Ok(self.0.to_string())
    }
}

const APOD_BODY: &str = "{\"date\":\"2023-02-21\",\"explanation\":\"A comet passed.\"}";

const FLR_BODY: &str = "[{\"flrID\":\"1\",\"activeRegionNum\":13243},{\"flrID\":\"2\",\"activeRegionNum\":13245}]";

#[test]
fn test_apod() {
    let apod = Apod::default();
    let nerva = NervaClient::new(apod, ApodParams::default());
    let response = nerva.get(&DemoKey, &BodyTransport(APOD_BODY));
    let values = nerva::filter::filter::<nerva::filter::Match<String>>(
        response.unwrap(),
        &nerva::filter::Match::new("explanation"),
    );
    assert!(values.is_ok());
    println!("{:#?}", values.unwrap());
}

#[test]
fn test_filters() {
    let flr = FLR::default();
    let params = FLRParams::StartDate("2023-01-01".to_string());
    let nerva = NervaClient::new(flr, params);
    let response = nerva.get(&DemoKey, &BodyTransport(FLR_BODY)).unwrap();
    println!("{:#?}", response);
    let values = nerva::filters::filter::<nerva::filters::Match<u32>>(
        response,
        &nerva::filters::Match::new("activeRegionNum"),
    );
    println!("{:#?}", values.unwrap());
}

#[test]
fn shallow_lookup_finds_top_level_value() {
    let nerva = NervaClient::new(Apod::default(), ApodParams::default());
    let response = nerva.get(&DemoKey, &BodyTransport(APOD_BODY)).unwrap();
    let values = nerva::filter::filter::<nerva::filter::Match<String>>(
        response,
        &nerva::filter::Match::new("explanation"),
    )
    .unwrap();
    assert_eq!(values.len(), 1);
    assert_eq!(values[0].as_text().map(|s| s.as_str()), Some("A comet passed."));
}

#[test]
fn shallow_lookup_misses_absent_key() {
    let nerva = NervaClient::new(Apod::default(), ApodParams::default());
    let response = nerva.get(&DemoKey, &BodyTransport(APOD_BODY)).unwrap();
    let values = nerva::filter::filter::<nerva::filter::Match<String>>(
        response,
        &nerva::filter::Match::new("copyright"),
    );
    assert!(matches!(values, Err(nerva::kernel::FilterError::KeyNotFound)));
}

#[test]
fn deep_search_collects_every_match_in_order() {
    let nerva = NervaClient::new(FLR::default(), FLRParams::default());
    let response = nerva.get(&DemoKey, &BodyTransport(FLR_BODY)).unwrap();
    let values = nerva::filters::filter::<nerva::filters::Match<u32>>(
        response,
        &nerva::filters::Match::new("activeRegionNum"),
    )
    .unwrap();
    assert_eq!(values.len(), 2);
    assert_eq!(values[0].as_number().map(|s| s.as_str()), Some("13243"));
    assert_eq!(values[1].as_number().map(|s| s.as_str()), Some("13245"));
}

#[test]
fn deep_search_on_scalar_finds_nothing() {
    let nerva = NervaClient::new(Apod::default(), ApodParams::default());
    let response = nerva.get(&DemoKey, &BodyTransport("3")).unwrap();
    let values = nerva::filters::filter::<nerva::filters::Match<u32>>(
        response,
        &nerva::filters::Match::new("anything"),
    )
    .unwrap();
    assert_eq!(values.len(), 0);
}

#[test]
fn response_round_trip_and_bytedump() {
    let r = nerva::response::into_response("{\"a\":1}").unwrap();
    let bytes = r.bytedump().unwrap();
    assert_eq!(bytes, b"{\"a\":1}".to_vec());
    let v1 = r.json().unwrap();
    let v2 = r.json().unwrap();
    assert_eq!(v1, v2);

    let bad = nerva::response::into_response("<html>error</html>");
    match bad {
        Err(ClientError::DecodeError { snippet }) => assert_eq!(snippet, "<html>error</html>"),
        other => panic!("expected a decode error, got {:?}", other),
    }
}

#[test]
fn pretty_print_has_exact_layout() {
    let pretty = nerva::pretty::to_string_pretty("{\"a\":1}".to_string()).unwrap();
    assert_eq!(pretty, "{\n  \"a\": 1\n}");
    let bad = nerva::pretty::to_string_pretty("not json".to_string());
    assert!(matches!(bad, Err(ClientError::DecodeError { .. })));
}

#[test]
fn get_tree_decodes_into_the_library_tree() {
    let nerva = NervaClient::new(Apod::default(), ApodParams::default());
    let tree = nerva.get_tree(&DemoKey, &BodyTransport(APOD_BODY)).unwrap();
    let values = nerva::filters::collect_values(tree, &"explanation".to_string());
    assert_eq!(values.len(), 1);
    assert_eq!(values[0].as_text().map(|s| s.as_str()), Some("A comet passed."));

    let bad = nerva.get_tree(&DemoKey, &BodyTransport("<html>error</html>"));
    assert!(matches!(bad, Err(ClientError::DecodeError { .. })));
}
