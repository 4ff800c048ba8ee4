//! The client: endpoint template state, per-operation query builders, the
//! geosearch domain validator, and the facade that ties builder, transport
//! and extraction together.

use vstd::prelude::*;

use crate::json::{
    extract_languages_spec, extract_titles_spec, json_of, languages_from_response,
    titles_from_response, Json,
};
use crate::template::{find_marker, find_marker_in, lemma_find_marker_first, marker, retemplated};
use crate::text::{coord_text, coord_to_string, dec_digits, u64_to_string};
use crate::{AsyncHttpClient, Error};

verus! {

/// A client for a MediaWiki-style query API, generic over its transport.
pub struct Wikipedia<A: AsyncHttpClient> {
    /// The transport that performs the HTTP requests.
    pub client: A,
    /// The endpoint is `pre_language_url + language + post_language_url`.
    pub pre_language_url: String,
    pub post_language_url: String,
    pub language: String,
    /// Number of results to fetch when searching.
    pub search_results: u32,
    /// Page size for image listings; "max" asks for as many as possible.
    pub images_results: String,
    /// Like `images_results`, for links and references.
    pub links_results: String,
    /// Like `images_results`, for categories.
    pub categories_results: String,
}

/// The URL a client renders: prefix, then language, then suffix.
pub open spec fn rendered_url<A: AsyncHttpClient>(w: Wikipedia<A>) -> Seq<char> {
    w.pre_language_url@ + w.language@ + w.post_language_url@
}

/// The parameter set for a title search.
pub open spec fn search_params_view(limit: nat, query: Seq<char>) -> Seq<(Seq<char>, Seq<char>)> {
    seq![
        ("list"@, "search"@),
        ("srprop"@, Seq::<char>::empty()),
        ("srlimit"@, dec_digits(limit)),
        ("srsearch"@, query),
        ("format"@, "json"@),
        ("action"@, "query"@),
    ]
}

/// The parameter set for a geographic search; coordinates in micro-degrees.
pub open spec fn geosearch_params_view(
    limit: nat,
    latitude: int,
    longitude: int,
    radius: nat,
) -> Seq<(Seq<char>, Seq<char>)> {
    seq![
        ("list"@, "geosearch"@),
        ("gsradius"@, dec_digits(radius)),
        ("gscoord"@, coord_text(latitude) + seq!['|'] + coord_text(longitude)),
        ("gslimit"@, dec_digits(limit)),
        ("format"@, "json"@),
        ("action"@, "query"@),
    ]
}

/// The parameter set for fetching random article titles.
pub open spec fn random_params_view(count: nat) -> Seq<(Seq<char>, Seq<char>)> {
    seq![
        ("list"@, "random"@),
        ("rnnamespace"@, "0"@),
        ("rnlimit"@, dec_digits(count)),
        ("format"@, "json"@),
        ("action"@, "query"@),
    ]
}

/// The parameter set for listing the site's languages.
pub open spec fn languages_params_view() -> Seq<(Seq<char>, Seq<char>)> {
    seq![("meta"@, "siteinfo"@), ("siprop"@, "languages"@), ("format"@, "json"@), ("action"@, "query"@)]
}

/// The first violated geosearch bound, if any, by parameter name; the
/// coordinates are in micro-degrees, the radius in meters.
pub open spec fn invalid_geo_param(latitude: int, longitude: int, radius: int) -> Option<
    Seq<char>,
> {
    if !(-90000000 <= latitude <= 90000000) {
        Some("latitude"@)
    } else if !(-180000000 <= longitude <= 180000000) {
        Some("longitude"@)
    } else if !(10 <= radius <= 10000) {
        Some("radius"@)
    } else {
        None
    }
}

/// Checks the geosearch domain bounds; the first violated bound fails with
/// the offending parameter's name, before any transport call.
pub fn validate_geosearch(latitude: i64, longitude: i64, radius: u16) -> (r: Result<(), Error>)
    ensures
        match invalid_geo_param(latitude as int, longitude as int, radius as int) {
            Some(name) => r matches Err(e) && e matches Error::InvalidParameter(p) && p@ == name,
            None => r == Ok::<(), Error>(()),
        },
{
    if latitude < -90000000 || latitude > 90000000 {
        Err(Error::InvalidParameter(String::from_str("latitude")))
    } else if longitude < -180000000 || longitude > 180000000 {
        Err(Error::InvalidParameter(String::from_str("longitude")))
    } else if radius < 10 || radius > 10000 {
        Err(Error::InvalidParameter(String::from_str("radius")))
    } else {
        Ok(())
    }
}

impl<A: AsyncHttpClient> Wikipedia<A> {
    /// Creates a new client using the provided transport and default values.
    pub fn new(client: A) -> (r: Self)
        ensures
            r.client == client,
            r.pre_language_url@ == "https://"@,
            r.post_language_url@ == ".wikipedia.org/w/api.php"@,
            r.language@ == "en"@,
            r.search_results == 10,
            r.images_results@ == "max"@,
            r.links_results@ == "max"@,
            r.categories_results@ == "max"@,
    {
        Wikipedia {
            client,
            pre_language_url: String::from_str("https://"),
            post_language_url: String::from_str(".wikipedia.org/w/api.php"),
            language: String::from_str("en"),
            search_results: 10,
            images_results: String::from_str("max"),
            links_results: String::from_str("max"),
            categories_results: String::from_str("max"),
        }
    }

    /// Returns the api url.
    pub fn base_url(&self) -> (r: String)
        ensures
            r@ == rendered_url(*self),
    {
        let mut s = self.pre_language_url.clone();
        s.append(self.language.as_str());
        s.append(self.post_language_url.as_str());
        s
    }

    /// Updates the url format: the template is split around the first
    /// occurrence of the marker `{language}`, which renders as the selected
    /// language; a url without the marker is taken literally and the
    /// language cleared.
    pub fn set_base_url(&mut self, base_url: &str)
        ensures
            match find_marker_in(base_url@) {
                Some(i) => {
                    &&& final (self).pre_language_url@ == base_url@.take(i)
                    &&& final (self).post_language_url@ == base_url@.skip(
                        i + marker().len() as int,
                    )
                    &&& final (self).language == old(self).language
                },
                None => {
                    &&& final (self).pre_language_url@ == base_url@
                    &&& final (self).language@ == Seq::<char>::empty()
                    &&& final (self).post_language_url@ == Seq::<char>::empty()
                },
            },
            rendered_url(*final (self)) == retemplated(base_url@, old(self).language@),
            final (self).client == old(self).client,
            final (self).search_results == old(self).search_results,
            final (self).images_results == old(self).images_results,
            final (self).links_results == old(self).links_results,
            final (self).categories_results == old(self).categories_results,
    {
        match find_marker(base_url) {
            Some(i) => {
                proof {
                    lemma_find_marker_first(base_url@);
                    reveal_strlit("{language}");
                }
                let n = base_url.unicode_len();
                let pre = base_url.substring_char(0, i);
                let post = base_url.substring_char(i + 10, n);
                self.pre_language_url = String::from_str(pre);
                self.post_language_url = String::from_str(post);
                proof {
                    assert(self.pre_language_url@ =~= base_url@.take(i as int));
                    assert(self.post_language_url@ =~= base_url@.skip(
                        i + marker().len() as int,
                    ));
                }
            },
            None => {
                self.pre_language_url = String::from_str(base_url);
                self.language = String::new();
                self.post_language_url = String::new();
                proof {
                    assert(rendered_url(*self) =~= base_url@);
                }
            },
        }
    }

    /// Builds the parameter set for a title search.
    pub fn search_params(&self, query: &str) -> (r: Vec<(String, String)>)
        ensures
            r.deep_view() == search_params_view(self.search_results as nat, query@),
    {
        let mut v: Vec<(String, String)> = Vec::new();
        v.push((String::from_str("list"), String::from_str("search")));
        v.push((String::from_str("srprop"), String::new()));
        v.push((String::from_str("srlimit"), u64_to_string(self.search_results as u64)));
        v.push((String::from_str("srsearch"), String::from_str(query)));
        v.push((String::from_str("format"), String::from_str("json")));
        v.push((String::from_str("action"), String::from_str("query")));
        proof {
            assert(v.deep_view() =~= search_params_view(self.search_results as nat, query@));
        }
        v
    }

    /// Builds the parameter set for a geographic search.
    pub fn geosearch_params(&self, latitude: i64, longitude: i64, radius: u16) -> (r: Vec<
        (String, String),
    >)
        requires
            invalid_geo_param(latitude as int, longitude as int, radius as int) is None,
        ensures
            r.deep_view() == geosearch_params_view(
                self.search_results as nat,
                latitude as int,
                longitude as int,
                radius as nat,
            ),
    {
        let mut coord = coord_to_string(latitude);
        let bar = String::from_str("|");
        proof {
            reveal_strlit("|");
        }
        coord.append(bar.as_str());
        let lon = coord_to_string(longitude);
        coord.append(lon.as_str());
        proof {
            assert(coord@ =~= coord_text(latitude as int) + seq!['|'] + coord_text(
                longitude as int,
            ));
        }
        let mut v: Vec<(String, String)> = Vec::new();
        v.push((String::from_str("list"), String::from_str("geosearch")));
        v.push((String::from_str("gsradius"), u64_to_string(radius as u64)));
        v.push((String::from_str("gscoord"), coord));
        v.push((String::from_str("gslimit"), u64_to_string(self.search_results as u64)));
        v.push((String::from_str("format"), String::from_str("json")));
        v.push((String::from_str("action"), String::from_str("query")));
        proof {
            assert(v.deep_view() =~= geosearch_params_view(
                self.search_results as nat,
                latitude as int,
                longitude as int,
                radius as nat,
            ));
        }
        v
    }

    /// Builds the parameter set for fetching random article titles.
    pub fn random_params(&self, count: u8) -> (r: Vec<(String, String)>)
        ensures
            r.deep_view() == random_params_view(count as nat),
    {
        let mut v: Vec<(String, String)> = Vec::new();
        v.push((String::from_str("list"), String::from_str("random")));
        v.push((String::from_str("rnnamespace"), String::from_str("0")));
        v.push((String::from_str("rnlimit"), u64_to_string(count as u64)));
        v.push((String::from_str("format"), String::from_str("json")));
        v.push((String::from_str("action"), String::from_str("query")));
        proof {
            assert(v.deep_view() =~= random_params_view(count as nat));
        }
        v
    }

    /// Builds the parameter set for listing the site's languages.
    pub fn languages_params(&self) -> (r: Vec<(String, String)>)
        ensures
            r.deep_view() == languages_params_view(),
    {
        let mut v: Vec<(String, String)> = Vec::new();
        v.push((String::from_str("meta"), String::from_str("siteinfo")));
        v.push((String::from_str("siprop"), String::from_str("languages")));
        v.push((String::from_str("format"), String::from_str("json")));
        v.push((String::from_str("action"), String::from_str("query")));
        proof {
            assert(v.deep_view() =~= languages_params_view());
        }
        v
    }

    /// Renders the endpoint and runs one GET through the transport.
    fn query(&self, params: &Vec<(String, String)>) -> (r: Result<String, Error>)
        ensures
            r matches Err(e) ==> e is Network || e is Encoding,
    {
        let url = self.base_url();
        self.client.get(url.as_str(), params)
    }

    /// Searches for a string and returns a list of relevant page titles.
    pub fn search(&self, query: &str) -> (r: Result<Vec<String>, Error>)
        ensures
            r matches Err(e) ==> e is Network || e is Encoding || e is Decode
                || e is MissingPath,
            r matches Ok(v) ==> exists|body: Seq<char>, doc: Json|
                json_of(body) == Some(doc) && extract_titles_spec(doc, "search"@) == Some(
                    v.deep_view(),
                ),
    {
        let params = self.search_params(query);
        let resp = self.query(&params);
        let ghost resp0 = resp;
        let r = titles_from_response(resp, "search");
        let ghost spec_r = r;
        proof {
            match spec_r {
                Ok(v) => {
                    match resp0 {
                        Ok(body) => {
                            match json_of(body@) {
                                Some(doc) => {
                                    assert(json_of(body@) == Some(doc)
                                        && extract_titles_spec(doc, "search"@) == Some(
                                        v.deep_view(),
                                    ));
                                },
                                None => {
                                    assert(false);
                                },
                            }
                        },
                        Err(_) => {
                            assert(false);
                        },
                    }
                },
                Err(_) => {},
            }
        }
        r
    }

    /// Search articles within `radius` meters of `latitude` and `longitude`,
    /// both given in micro-degrees.
    pub fn geosearch(&self, latitude: i64, longitude: i64, radius: u16) -> (r: Result<
        Vec<String>,
        Error,
    >)
        ensures
            match invalid_geo_param(latitude as int, longitude as int, radius as int) {
                Some(name) => r matches Err(e) && e matches Error::InvalidParameter(p) && p@
                    == name,
                None => {
                    &&& r matches Err(e) ==> e is Network || e is Encoding || e is Decode
                        || e is MissingPath
                    &&& r matches Ok(v) ==> exists|body: Seq<char>, doc: Json|
                        json_of(body) == Some(doc) && extract_titles_spec(doc, "geosearch"@)
                            == Some(v.deep_view())
                },
            },
    {
        match validate_geosearch(latitude, longitude, radius) {
            Ok(_) => {},
            Err(e) => {
                return Err(e);
            },
        }
        let params = self.geosearch_params(latitude, longitude, radius);
        let resp = self.query(&params);
        let ghost resp0 = resp;
        let r = titles_from_response(resp, "geosearch");
        let ghost spec_r = r;
        proof {
            match spec_r {
                Ok(v) => {
                    match resp0 {
                        Ok(body) => {
                            match json_of(body@) {
                                Some(doc) => {
                                    assert(json_of(body@) == Some(doc)
                                        && extract_titles_spec(doc, "geosearch"@) == Some(
                                        v.deep_view(),
                                    ));
                                },
                                None => {
                                    assert(false);
                                },
                            }
                        },
                        Err(_) => {
                            assert(false);
                        },
                    }
                },
                Err(_) => {},
            }
        }
        r
    }

    /// Fetches `count` random articles' titles.
    pub fn random_count(&self, count: u8) -> (r: Result<Vec<String>, Error>)
        ensures
            r matches Err(e) ==> e is Network || e is Encoding || e is Decode
                || e is MissingPath,
            r matches Ok(v) ==> exists|body: Seq<char>, doc: Json|
                json_of(body) == Some(doc) && extract_titles_spec(doc, "random"@) == Some(
                    v.deep_view(),
                ),
    {
        let params = self.random_params(count);
        let resp = self.query(&params);
        let ghost resp0 = resp;
        let r = titles_from_response(resp, "random");
        let ghost spec_r = r;
        proof {
            match spec_r {
                Ok(v) => {
                    match resp0 {
                        Ok(body) => {
                            match json_of(body@) {
                                Some(doc) => {
                                    assert(json_of(body@) == Some(doc)
                                        && extract_titles_spec(doc, "random"@) == Some(
                                        v.deep_view(),
                                    ));
                                },
                                None => {
                                    assert(false);
                                },
                            }
                        },
                        Err(_) => {
                            assert(false);
                        },
                    }
                },
                Err(_) => {},
            }
        }
        r
    }

    /// Fetches a random article's title: the first of a one-element fetch,
    /// or none when the fetched list is empty.
    pub fn random(&self) -> (r: Result<Option<String>, Error>)
        ensures
            r matches Err(e) ==> e is Network || e is Encoding || e is Decode
                || e is MissingPath,
            r matches Ok(o) ==> exists|body: Seq<char>, doc: Json, ts: Seq<Seq<char>>|
                json_of(body) == Some(doc) && extract_titles_spec(doc, "random"@) == Some(ts)
                    && (ts.len() == 0 ==> o is None) && (ts.len() > 0 ==> (o matches Some(t)
                    && t@ == ts[0])),
    {
        let r0 = self.random_count(1);
        let ghost spec_r0 = r0;
        let r = first_title(r0);
        let ghost spec_r = r;
        proof {
            match spec_r {
                Ok(o) => {
                    match spec_r0 {
                        Ok(v) => {
                            let (body, doc) = choose|body: Seq<char>, doc: Json|
                                json_of(body) == Some(doc) && extract_titles_spec(
                                    doc,
                                    "random"@,
                                ) == Some(v.deep_view());
                            let ts = v.deep_view();
                            assert(ts.len() == v@.len());
                            assert(json_of(body) == Some(doc) && extract_titles_spec(
                                doc,
                                "random"@,
                            ) == Some(ts) && (ts.len() == 0 ==> o is None) && (ts.len() > 0
                                ==> (o matches Some(t) && t@ == ts[0])));
                        },
                        Err(_) => {
                            assert(false);
                        },
                    }
                },
                Err(_) => {},
            }
        }
        r
    }

    /// Returns a list of languages in the form of (identifier, language)
    /// pairs, for example ("en", "English").
    pub fn get_languages(&self) -> (r: Result<Vec<(String, String)>, Error>)
        ensures
            r matches Err(e) ==> e is Network || e is Encoding || e is Decode
                || e is MissingPath,
            r matches Ok(v) ==> exists|body: Seq<char>, doc: Json|
                json_of(body) == Some(doc) && extract_languages_spec(doc) == Some(
                    v.deep_view(),
                ),
    {
        let params = self.languages_params();
        let resp = self.query(&params);
        let ghost resp0 = resp;
        let r = languages_from_response(resp);
        let ghost spec_r = r;
        proof {
            match spec_r {
                Ok(v) => {
                    match resp0 {
                        Ok(body) => {
                            match json_of(body@) {
                                Some(doc) => {
                                    assert(json_of(body@) == Some(doc)
                                        && extract_languages_spec(doc) == Some(
                                        v.deep_view(),
                                    ));
                                },
                                None => {
                                    assert(false);
                                },
                            }
                        },
                        Err(_) => {
                            assert(false);
                        },
                    }
                },
                Err(_) => {},
            }
        }
        r
    }
}

impl<A: AsyncHttpClient + Default> Default for Wikipedia<A> {
    /// A client over the transport's default value, with default settings.
    fn default() -> (r: Self)
        ensures
            r.pre_language_url@ == "https://"@,
            r.post_language_url@ == ".wikipedia.org/w/api.php"@,
            r.language@ == "en"@,
            r.search_results == 10,
            r.images_results@ == "max"@,
            r.links_results@ == "max"@,
            r.categories_results@ == "max"@,
    {
        Wikipedia::new(A::default())
    }
}

/// The first title of a fetched list: the composition behind `random`,
/// stated for every value a title fetch can return.
pub fn first_title(r0: Result<Vec<String>, Error>) -> (r: Result<Option<String>, Error>)
    ensures
        r0 matches Err(e) ==> r == Err::<Option<String>, Error>(e),
        r0 matches Ok(v) ==> ({
            &&& v@.len() == 0 ==> r == Ok::<Option<String>, Error>(None)
            &&& v@.len() > 0 ==> (r matches Ok(o) && o matches Some(t) && t@
                == v.deep_view()[0])
        }),
{
    match r0 {
        Ok(mut v) => {
            if v.len() == 0 {
                Ok(None)
            } else {
                let t = v.remove(0);
                Ok(Some(t))
            }
        },
        Err(e) => Err(e),
    }
}

} // verus!
