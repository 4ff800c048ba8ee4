use wikipedia::text::{coord_to_string, u64_to_string};
use wikipedia::wikipedia::validate_geosearch;
use wikipedia::AsyncHttpClient;
use wikipedia::Error;
use wikipedia::Wikipedia;

struct NoClient;

impl AsyncHttpClient for NoClient {
    fn get(&self, _base_url: &str, _args: &Vec<(String, String)>) -> Result<String, Error> {
        Err(Error::Network)
    }
}

fn pair(k: &str, v: &str) -> (String, String) {
    (k.to_string(), v.to_string())
}

#[test]
fn decimal_rendering() {
    assert_eq!(u64_to_string(0), "0");
    assert_eq!(u64_to_string(7), "7");
    assert_eq!(u64_to_string(10), "10");
    assert_eq!(u64_to_string(1234567890), "1234567890");
}

#[test]
fn coordinate_rendering() {
    assert_eq!(coord_to_string(0), "0");
    assert_eq!(coord_to_string(90_000_000), "90");
    assert_eq!(coord_to_string(-73_993_611), "-73.993611");
    assert_eq!(coord_to_string(40_750_556), "40.750556");
    assert_eq!(coord_to_string(40_500_000), "40.5");
    assert_eq!(coord_to_string(-500_000), "-0.5");
    assert_eq!(coord_to_string(123), "0.000123");
}

#[test]
fn search_params_are_exact() {
    let wiki = Wikipedia::new(NoClient);
    assert_eq!(
        wiki.search_params("keyboard"),
        vec![
            pair("list", "search"),
            pair("srprop", ""),
            pair("srlimit", "10"),
            pair("srsearch", "keyboard"),
            pair("format", "json"),
            pair("action", "query"),
        ]
    );
}

#[test]
fn search_params_follow_configured_limit() {
    let mut wiki = Wikipedia::new(NoClient);
    wiki.search_results = 25;
    assert_eq!(wiki.search_params("x")[2], pair("srlimit", "25"));
}

#[test]
fn geosearch_params_are_exact() {
    let wiki = Wikipedia::new(NoClient);
    assert_eq!(
        wiki.geosearch_params(40_750_556, -73_993_611, 20),
        vec![
            pair("list", "geosearch"),
            pair("gsradius", "20"),
            pair("gscoord", "40.750556|-73.993611"),
            pair("gslimit", "10"),
            pair("format", "json"),
            pair("action", "query"),
        ]
    );
}

#[test]
fn random_params_are_exact() {
    let wiki = Wikipedia::new(NoClient);
    assert_eq!(
        wiki.random_params(3),
        vec![
            pair("list", "random"),
            pair("rnnamespace", "0"),
            pair("rnlimit", "3"),
            pair("format", "json"),
            pair("action", "query"),
        ]
    );
}

#[test]
fn languages_params_are_exact() {
    let wiki = Wikipedia::new(NoClient);
    assert_eq!(
        wiki.languages_params(),
        vec![
            pair("meta", "siteinfo"),
            pair("siprop", "languages"),
            pair("format", "json"),
            pair("action", "query"),
        ]
    );
}

#[test]
fn validation_boundaries() {
    assert_eq!(validate_geosearch(90_000_000, 180_000_000, 10000), Ok(()));
    assert_eq!(validate_geosearch(-90_000_000, -180_000_000, 10), Ok(()));
    assert_eq!(
        validate_geosearch(-90_000_001, 0, 100),
        Err(Error::InvalidParameter("latitude".to_string()))
    );
    assert_eq!(
        validate_geosearch(0, -180_000_001, 100),
        Err(Error::InvalidParameter("longitude".to_string()))
    );
    assert_eq!(
        validate_geosearch(0, 0, 10001),
        Err(Error::InvalidParameter("radius".to_string()))
    );
}
