use wikipedia::AsyncHttpClient;
use wikipedia::Error;
use wikipedia::Wikipedia;

#[derive(Default)]
struct NoClient;

impl AsyncHttpClient for NoClient {
    fn get(&self, _base_url: &str, _args: &Vec<(String, String)>) -> Result<String, Error> {
        Err(Error::Network)
    }
}

#[test]
fn default_base_url() {
    let wiki = Wikipedia::new(NoClient);
    assert_eq!(wiki.base_url(), "https://en.wikipedia.org/w/api.php");
}

#[test]
fn default_client_matches_new() {
    let wiki = Wikipedia::<NoClient>::default();
    assert_eq!(wiki.base_url(), "https://en.wikipedia.org/w/api.php");
    assert_eq!(wiki.search_results, 10);
    assert_eq!(wiki.images_results, "max");
    assert_eq!(wiki.links_results, "max");
    assert_eq!(wiki.categories_results, "max");
}

#[test]
fn base_url_follows_language() {
    let mut wiki = Wikipedia::new(NoClient);
    wiki.language = "es".to_string();
    assert_eq!(wiki.base_url(), "https://es.wikipedia.org/w/api.php");
}

#[test]
fn set_base_url_splits_at_marker() {
    let mut wiki = Wikipedia::new(NoClient);
    wiki.set_base_url("http://{language}.example.org/api");
    assert_eq!(wiki.pre_language_url, "http://");
    assert_eq!(wiki.post_language_url, ".example.org/api");
    assert_eq!(wiki.language, "en");
    assert_eq!(wiki.base_url(), "http://en.example.org/api");
}

#[test]
fn template_without_marker_is_literal() {
    let mut wiki = Wikipedia::new(NoClient);
    wiki.set_base_url("https://x.example/api");
    assert_eq!(wiki.base_url(), "https://x.example/api");
    assert_eq!(wiki.language, "");
}

#[test]
fn template_without_marker_ignores_language() {
    let mut wiki = Wikipedia::new(NoClient);
    wiki.language = "de".to_string();
    wiki.set_base_url("https://x.example/api");
    assert_eq!(wiki.base_url(), "https://x.example/api");
}

#[test]
fn template_round_trip() {
    let mut wiki = Wikipedia::new(NoClient);
    wiki.set_base_url("https://{language}.wikipedia.org/w/api.php");
    let rendered = wiki.base_url();
    assert_eq!(rendered, "https://en.wikipedia.org/w/api.php");
    wiki.set_base_url(&rendered);
    assert_eq!(wiki.base_url(), rendered);
}

#[test]
fn marker_at_start_and_end() {
    let mut wiki = Wikipedia::new(NoClient);
    wiki.set_base_url("{language}.example.org");
    assert_eq!(wiki.pre_language_url, "");
    assert_eq!(wiki.post_language_url, ".example.org");
    wiki.set_base_url("https://example.org/{language}");
    assert_eq!(wiki.pre_language_url, "https://example.org/");
    assert_eq!(wiki.post_language_url, "");
    assert_eq!(wiki.base_url(), "https://example.org/en");
}

#[test]
fn split_uses_first_marker() {
    let mut wiki = Wikipedia::new(NoClient);
    wiki.set_base_url("a{language}b{language}c");
    assert_eq!(wiki.pre_language_url, "a");
    assert_eq!(wiki.post_language_url, "b{language}c");
}
