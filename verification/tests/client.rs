use std::cell::Cell;

use wikipedia::wikipedia::first_title;
use wikipedia::AsyncHttpClient;
use wikipedia::Error;
use wikipedia::Wikipedia;

/// A transport that hands back a fixed body and counts its invocations.
struct MockClient {
    calls: Cell<u32>,
    body: String,
}

impl MockClient {
    fn returning(body: &str) -> MockClient {
        MockClient { calls: Cell::new(0), body: body.to_string() }
    }
}

impl AsyncHttpClient for MockClient {
    fn get(&self, _base_url: &str, _args: &Vec<(String, String)>) -> Result<String, Error> {
        self.calls.set(self.calls.get() + 1);
        Ok(self.body.clone())
    }
}

/// A transport that always fails.
struct FailingClient;

impl AsyncHttpClient for FailingClient {
    fn get(&self, _base_url: &str, _args: &Vec<(String, String)>) -> Result<String, Error> {
        Err(Error::Network)
    }
}

#[test]
fn search_extracts_titles_leniently() {
    let body = "{\"query\":{\"search\":[{\"title\":\"A\"},{\"no_title\":1},{\"title\":\"B\"}]}}";
    let wiki = Wikipedia::new(MockClient::returning(body));
    let titles = wiki.search("anything").unwrap();
    assert_eq!(titles, vec!["A".to_string(), "B".to_string()]);
    assert_eq!(wiki.client.calls.get(), 1);
}

#[test]
fn search_fails_on_empty_envelope() {
    let wiki = Wikipedia::new(MockClient::returning("{\"query\":{}}"));
    assert_eq!(wiki.search("anything"), Err(Error::MissingPath));
}

#[test]
fn search_fails_on_invalid_json() {
    let wiki = Wikipedia::new(MockClient::returning("not json"));
    assert_eq!(wiki.search("anything"), Err(Error::Decode));
}

#[test]
fn search_surfaces_transport_failure() {
    let wiki = Wikipedia::new(FailingClient);
    assert_eq!(wiki.search("anything"), Err(Error::Network));
}

/// A transport that cannot encode its request.
struct EncodingFailClient;

impl AsyncHttpClient for EncodingFailClient {
    fn get(&self, _base_url: &str, _args: &Vec<(String, String)>) -> Result<String, Error> {
        Err(Error::Encoding)
    }
}

#[test]
fn search_surfaces_encoding_failure() {
    let wiki = Wikipedia::new(EncodingFailClient);
    assert_eq!(wiki.search("anything"), Err(Error::Encoding));
}

#[test]
fn geosearch_at_bounds_passes_validation() {
    let body = "{\"query\":{\"geosearch\":[{\"title\":\"T\"}]}}";
    let wiki = Wikipedia::new(MockClient::returning(body));
    let titles = wiki.geosearch(90_000_000, 180_000_000, 10000).unwrap();
    assert_eq!(titles, vec!["T".to_string()]);
    assert_eq!(wiki.client.calls.get(), 1);
}

#[test]
fn geosearch_rejects_latitude_before_any_call() {
    let wiki = Wikipedia::new(MockClient::returning("{}"));
    let r = wiki.geosearch(90_000_100, 0, 100);
    assert_eq!(r, Err(Error::InvalidParameter("latitude".to_string())));
    assert_eq!(wiki.client.calls.get(), 0);
}

#[test]
fn geosearch_rejects_longitude_before_any_call() {
    let wiki = Wikipedia::new(MockClient::returning("{}"));
    let r = wiki.geosearch(0, 180_000_100, 100);
    assert_eq!(r, Err(Error::InvalidParameter("longitude".to_string())));
    assert_eq!(wiki.client.calls.get(), 0);
}

#[test]
fn geosearch_rejects_small_radius_before_any_call() {
    let wiki = Wikipedia::new(MockClient::returning("{}"));
    let r = wiki.geosearch(0, 0, 9);
    assert_eq!(r, Err(Error::InvalidParameter("radius".to_string())));
    assert_eq!(wiki.client.calls.get(), 0);
}

#[test]
fn random_returns_the_single_title() {
    let body = "{\"query\":{\"random\":[{\"title\":\"X\"}]}}";
    let wiki = Wikipedia::new(MockClient::returning(body));
    assert_eq!(wiki.random(), Ok(Some("X".to_string())));
}

#[test]
fn random_returns_none_on_empty_list() {
    let body = "{\"query\":{\"random\":[]}}";
    let wiki = Wikipedia::new(MockClient::returning(body));
    assert_eq!(wiki.random(), Ok(None));
}

#[test]
fn random_count_returns_all_titles() {
    let body = "{\"query\":{\"random\":[{\"title\":\"X\"},{\"title\":\"Y\"}]}}";
    let wiki = Wikipedia::new(MockClient::returning(body));
    let titles = wiki.random_count(2).unwrap();
    assert_eq!(titles, vec!["X".to_string(), "Y".to_string()]);
}

#[test]
fn get_languages_returns_pairs() {
    let body =
        "{\"query\":{\"languages\":[{\"code\":\"en\",\"*\":\"English\"},{\"bad\":0},{\"code\":\"es\",\"*\":\"Spanish\"}]}}";
    let wiki = Wikipedia::new(MockClient::returning(body));
    let pairs = wiki.get_languages().unwrap();
    assert_eq!(
        pairs,
        vec![
            ("en".to_string(), "English".to_string()),
            ("es".to_string(), "Spanish".to_string()),
        ]
    );
}

#[test]
fn first_title_takes_the_head() {
    assert_eq!(first_title(Ok(vec![])), Ok(None));
    assert_eq!(
        first_title(Ok(vec!["a".to_string(), "b".to_string()])),
        Ok(Some("a".to_string()))
    );
    assert_eq!(first_title(Err(Error::Network)), Err(Error::Network));
}
