//! The response document model: a plain JSON sum type, the trusted parse
//! through serde_json, and the verified path navigation and list extraction.
//!
//! Extraction is strict about the envelope (the nested objects and the
//! result array must be present with the right shapes) but lenient per
//! record: a record without the wanted string field is dropped, and the
//! remaining records are still returned.

use vstd::prelude::*;

use crate::text::str_eq;
use crate::Error;

verus! {

/// A JSON document, as a plain sum type.
#[derive(Debug)]
pub enum Json {
    Null,
    Bool(bool),
    /// A number, kept as its decimal source text; no operation reads it back.
    Num(String),
    Str(String),
    Arr(Vec<Json>),
    Obj(Vec<(String, Json)>),
}

/// The document that `s` parses to when `s` is valid JSON text, `None` when
/// it is not; what a parse accepts and returns is a function of the text
/// alone.
pub uninterp spec fn json_of(s: Seq<char>) -> Option<Json>;

#[verifier::external_type_specification]
#[verifier::external_body]
pub struct ExValue(serde_json::Value);

/// Relies on the shape of serde_json::Value: each variant is carried over to
/// the matching variant of `Json`, field for field; numbers keep their
/// decimal text, and an object's fields arrive in its map's own iteration
/// order (sorted by key, one entry per key, the deserializer having already
/// collapsed duplicates). Conversion only; it exists so that `parse_value`
/// hands out a value of the library's own type.
#[verifier::external_body]
fn value_to_json(v: serde_json::Value) -> Json {
    match v {
        serde_json::Value::Null => Json::Null,
        serde_json::Value::Bool(b) => Json::Bool(b),
        serde_json::Value::Number(n) => Json::Num(n.to_string()),
        serde_json::Value::String(s) => Json::Str(s),
        serde_json::Value::Array(a) => Json::Arr(a.into_iter().map(value_to_json).collect()),
        serde_json::Value::Object(o) => Json::Obj(
            o.into_iter().map(|(k, x)| (k, value_to_json(x))).collect(),
        ),
    }
}

/// Relies on serde_json::from_str: it parses the whole of `s` as one JSON
/// document or fails, and the outcome is determined by `s` alone.
#[verifier::external_body]
fn parse_value(s: &str) -> (r: Option<Json>)
    ensures
        r == json_of(s@),
{
    match serde_json::from_str::<serde_json::Value>(s) {
        Ok(v) => Some(value_to_json(v)),
        Err(_) => None,
    }
}

/// Parses a response body, or reports the decode failure.
pub fn parse_json(s: &str) -> (r: Result<Json, Error>)
    ensures
        match json_of(s@) {
            Some(doc) => r == Ok::<Json, Error>(doc),
            None => r == Err::<Json, Error>(Error::Decode),
        },
{
    match parse_value(s) {
        Some(doc) => Ok(doc),
        None => Err(Error::Decode),
    }
}

/// The value under `key` in an object's field list; the first match wins.
pub open spec fn obj_get(fields: Seq<(String, Json)>, key: Seq<char>) -> Option<Json>
    decreases fields.len(),
{
    if fields.len() == 0 {
        None
    } else if fields[0].0@ == key {
        Some(fields[0].1)
    } else {
        obj_get(fields.drop_first(), key)
    }
}

/// Looks `key` up in the field list of a JSON object.
pub fn obj_lookup<'a>(fields: &'a Vec<(String, Json)>, key: &str) -> (r: Option<&'a Json>)
    ensures
        match r {
            Some(j) => obj_get(fields@, key@) == Some(*j),
            None => obj_get(fields@, key@) is None,
        },
{
    proof {
        assert(fields@.skip(0) =~= fields@);
    }
    let mut i: usize = 0;
    loop
        invariant
            i <= fields@.len(),
            obj_get(fields@, key@) == obj_get(fields@.skip(i as int), key@),
        decreases fields@.len() - i,
    {
        if i == fields.len() {
            return None;
        }
        let pair = &fields[i];
        proof {
            assert(fields@.skip(i as int)[0] == fields@[i as int]);
        }
        if str_eq(pair.0.as_str(), key) {
            return Some(&pair.1);
        }
        proof {
            assert(fields@.skip(i as int).drop_first() =~= fields@.skip(i + 1 as int));
        }
        i = i + 1;
    }
}

/// The string under `field` in a record, when the record is an object and
/// the field holds a string.
pub open spec fn record_str_field(j: Json, field: Seq<char>) -> Option<Seq<char>> {
    match j {
        Json::Obj(fs) => match obj_get(fs@, field) {
            Some(v) => match v {
                Json::Str(s) => Some(s@),
                _ => None,
            },
            None => None,
        },
        _ => None,
    }
}

fn record_str_get<'a>(j: &'a Json, field: &str) -> (r: Option<&'a String>)
    ensures
        match r {
            Some(s) => record_str_field(*j, field@) == Some(s@),
            None => record_str_field(*j, field@) is None,
        },
{
    match j {
        Json::Obj(fs) => match obj_lookup(fs, field) {
            Some(Json::Str(s)) => Some(s),
            _ => None,
        },
        _ => None,
    }
}

/// The string values under `field` across the records of `arr`, in order;
/// records without one are dropped.
pub open spec fn collect_str_fields(arr: Seq<Json>, field: Seq<char>) -> Seq<Seq<char>>
    decreases arr.len(),
{
    if arr.len() == 0 {
        Seq::empty()
    } else {
        let rest = collect_str_fields(arr.drop_last(), field);
        match record_str_field(arr.last(), field) {
            Some(s) => rest.push(s),
            None => rest,
        }
    }
}

/// The code/label pair of a language record, when both `code` and `*` hold
/// strings.
pub open spec fn record_pair(j: Json) -> Option<(Seq<char>, Seq<char>)> {
    match (record_str_field(j, "code"@), record_str_field(j, "*"@)) {
        (Some(code), Some(label)) => Some((code, label)),
        _ => None,
    }
}

/// The code/label pairs across the records of `arr`, in order; records
/// without both fields are dropped.
pub open spec fn collect_pairs(arr: Seq<Json>) -> Seq<(Seq<char>, Seq<char>)>
    decreases arr.len(),
{
    if arr.len() == 0 {
        Seq::empty()
    } else {
        let rest = collect_pairs(arr.drop_last());
        match record_pair(arr.last()) {
            Some(p) => rest.push(p),
            None => rest,
        }
    }
}

/// The titles that the envelope `doc` yields under `query.<key>[].title`:
/// `None` when the macro structure is absent or of the wrong shape.
pub open spec fn extract_titles_spec(doc: Json, key: Seq<char>) -> Option<Seq<Seq<char>>> {
    match doc {
        Json::Obj(top) => match obj_get(top@, "query"@) {
            Some(q) => match q {
                Json::Obj(qf) => match obj_get(qf@, key) {
                    Some(l) => match l {
                        Json::Arr(items) => Some(collect_str_fields(items@, "title"@)),
                        _ => None,
                    },
                    None => None,
                },
                _ => None,
            },
            None => None,
        },
        _ => None,
    }
}

/// The language pairs that the envelope `doc` yields under
/// `query.languages[]`: `None` when the macro structure is absent.
pub open spec fn extract_languages_spec(doc: Json) -> Option<Seq<(Seq<char>, Seq<char>)>> {
    match doc {
        Json::Obj(top) => match obj_get(top@, "query"@) {
            Some(q) => match q {
                Json::Obj(qf) => match obj_get(qf@, "languages"@) {
                    Some(l) => match l {
                        Json::Arr(items) => Some(collect_pairs(items@)),
                        _ => None,
                    },
                    None => None,
                },
                _ => None,
            },
            None => None,
        },
        _ => None,
    }
}

/// Extracts the title list at `query.<key>[].title`: strict about the
/// envelope, lenient per record.
pub fn extract_titles(doc: &Json, key: &str) -> (r: Result<Vec<String>, Error>)
    ensures
        match extract_titles_spec(*doc, key@) {
            Some(ts) => r matches Ok(v) && v.deep_view() == ts,
            None => r == Err::<Vec<String>, Error>(Error::MissingPath),
        },
{
    let top = match j_obj_fields(doc) {
        Some(fs) => fs,
        None => return Err(Error::MissingPath),
    };
    let qf = match obj_lookup(top, "query") {
        Some(q) => match j_obj_fields(q) {
            Some(fs) => fs,
            None => return Err(Error::MissingPath),
        },
        None => return Err(Error::MissingPath),
    };
    let items = match obj_lookup(qf, key) {
        Some(l) => match j_arr_items(l) {
            Some(a) => a,
            None => return Err(Error::MissingPath),
        },
        None => return Err(Error::MissingPath),
    };
    let mut out: Vec<String> = Vec::new();
    let mut i: usize = 0;
    while i < items.len()
        invariant
            i <= items@.len(),
            out.deep_view() == collect_str_fields(items@.take(i as int), "title"@),
        decreases items@.len() - i,
    {
        match record_str_get(&items[i], "title") {
            Some(s) => {
                out.push(s.clone());
            },
            None => {},
        }
        proof {
            assert(items@.take(i + 1 as int).drop_last() =~= items@.take(i as int));
            assert(items@.take(i + 1 as int).last() == items@[i as int]);
            assert(out.deep_view() =~= collect_str_fields(items@.take(i + 1 as int), "title"@));
        }
        i = i + 1;
    }
    proof {
        assert(items@.take(items@.len() as int) =~= items@);
    }
    Ok(out)
}

/// Extracts the language pairs at `query.languages[]`: strict about the
/// envelope, lenient per record.
pub fn extract_languages(doc: &Json) -> (r: Result<Vec<(String, String)>, Error>)
    ensures
        match extract_languages_spec(*doc) {
            Some(ps) => r matches Ok(v) && v.deep_view() == ps,
            None => r == Err::<Vec<(String, String)>, Error>(Error::MissingPath),
        },
{
    let top = match j_obj_fields(doc) {
        Some(fs) => fs,
        None => return Err(Error::MissingPath),
    };
    let qf = match obj_lookup(top, "query") {
        Some(q) => match j_obj_fields(q) {
            Some(fs) => fs,
            None => return Err(Error::MissingPath),
        },
        None => return Err(Error::MissingPath),
    };
    let items = match obj_lookup(qf, "languages") {
        Some(l) => match j_arr_items(l) {
            Some(a) => a,
            None => return Err(Error::MissingPath),
        },
        None => return Err(Error::MissingPath),
    };
    let mut out: Vec<(String, String)> = Vec::new();
    let mut i: usize = 0;
    while i < items.len()
        invariant
            i <= items@.len(),
            out.deep_view() == collect_pairs(items@.take(i as int)),
        decreases items@.len() - i,
    {
        let code = record_str_get(&items[i], "code");
        let label = record_str_get(&items[i], "*");
        match (code, label) {
            (Some(c), Some(l)) => {
                out.push((c.clone(), l.clone()));
            },
            _ => {},
        }
        proof {
            assert(items@.take(i + 1 as int).drop_last() =~= items@.take(i as int));
            assert(items@.take(i + 1 as int).last() == items@[i as int]);
            assert(out.deep_view() =~= collect_pairs(items@.take(i + 1 as int)));
        }
        i = i + 1;
    }
    proof {
        assert(items@.take(items@.len() as int) =~= items@);
    }
    Ok(out)
}

fn j_obj_fields<'a>(j: &'a Json) -> (r: Option<&'a Vec<(String, Json)>>)
    ensures
        match r {
            Some(fs) => *j == Json::Obj(*fs),
            None => !(*j matches Json::Obj(_)),
        },
{
    match j {
        Json::Obj(fs) => Some(fs),
        _ => None,
    }
}

fn j_arr_items<'a>(j: &'a Json) -> (r: Option<&'a Vec<Json>>)
    ensures
        match r {
            Some(items) => *j == Json::Arr(*items),
            None => !(*j matches Json::Arr(_)),
        },
{
    match j {
        Json::Arr(items) => Some(items),
        _ => None,
    }
}

/// Parses a response body and extracts the title list for `key`: a decode
/// failure, then the envelope check, then the lenient per-record mapping.
pub fn titles_from_body(body: &str, key: &str) -> (r: Result<Vec<String>, Error>)
    ensures
        json_of(body@) is None ==> r == Err::<Vec<String>, Error>(Error::Decode),
        json_of(body@) matches Some(doc) ==> match extract_titles_spec(doc, key@) {
            Some(ts) => r matches Ok(v) && v.deep_view() == ts,
            None => r == Err::<Vec<String>, Error>(Error::MissingPath),
        },
{
    match parse_json(body) {
        Ok(doc) => extract_titles(&doc, key),
        Err(e) => Err(e),
    }
}

/// The title list for each value a transport call can hand back: a
/// transport failure is surfaced verbatim, a body is parsed and the titles
/// under `key` extracted.
pub fn titles_from_response(resp: Result<String, Error>, key: &str) -> (r: Result<
    Vec<String>,
    Error,
>)
    ensures
        resp matches Err(e) ==> r == Err::<Vec<String>, Error>(e),
        resp matches Ok(body) ==> ({
            &&& json_of(body@) is None ==> r == Err::<Vec<String>, Error>(Error::Decode)
            &&& json_of(body@) matches Some(doc) ==> match extract_titles_spec(doc, key@) {
                Some(ts) => r matches Ok(v) && v.deep_view() == ts,
                None => r == Err::<Vec<String>, Error>(Error::MissingPath),
            }
        }),
{
    match resp {
        Ok(body) => titles_from_body(body.as_str(), key),
        Err(e) => Err(e),
    }
}

/// The language pairs for each value a transport call can hand back: a
/// transport failure is surfaced verbatim, a body is parsed and the pairs
/// extracted.
pub fn languages_from_response(resp: Result<String, Error>) -> (r: Result<
    Vec<(String, String)>,
    Error,
>)
    ensures
        resp matches Err(e) ==> r == Err::<Vec<(String, String)>, Error>(e),
        resp matches Ok(body) ==> ({
            &&& json_of(body@) is None ==> r == Err::<Vec<(String, String)>, Error>(
                Error::Decode,
            )
            &&& json_of(body@) matches Some(doc) ==> match extract_languages_spec(doc) {
                Some(ps) => r matches Ok(v) && v.deep_view() == ps,
                None => r == Err::<Vec<(String, String)>, Error>(Error::MissingPath),
            }
        }),
{
    match resp {
        Ok(body) => languages_from_body(body.as_str()),
        Err(e) => Err(e),
    }
}

/// Parses a response body and extracts the language pairs.
pub fn languages_from_body(body: &str) -> (r: Result<Vec<(String, String)>, Error>)
    ensures
        json_of(body@) is None ==> r == Err::<Vec<(String, String)>, Error>(Error::Decode),
        json_of(body@) matches Some(doc) ==> match extract_languages_spec(doc) {
            Some(ps) => r matches Ok(v) && v.deep_view() == ps,
            None => r == Err::<Vec<(String, String)>, Error>(Error::MissingPath),
        },
{
    match parse_json(body) {
        Ok(doc) => extract_languages(&doc),
        Err(e) => Err(e),
    }
}

} // verus!
