//! End-to-end tests of the query pipeline: request decoding, search-URL
//! construction, record extraction and response serialization.

use archive_search::codec::serialize_embryo_list;
use archive_search::extract::{extract_links_from_results, record_for_doc, ExtractError};
use archive_search::handler::query_response_body;
use archive_search::record::{compose_resume, record_url, Record};
use archive_search::request::{decode_request, parse_u64, RequestError};
use archive_search::upstream::build_search_url;

fn doc(json: &str) -> serde_json::Value {
    serde_json::from_str(json).unwrap()
}

#[test]
fn empty_body_defaults() {
    let req = decode_request("{}").unwrap();
    assert_eq!(req.value, "");
    assert_eq!(req.timeout, 10);
}

#[test]
fn missing_value_yields_empty_term() {
    let req = decode_request("{\"timeout\":\"5\"}").unwrap();
    assert_eq!(req.value, "");
    assert_eq!(req.timeout, 5);
    let url = build_search_url(&req.value);
    assert_eq!(
        url,
        "https://archive.org/advancedsearch.php?q=&output=json"
    );
}

#[test]
fn both_fields_decoded() {
    let req = decode_request("{\"value\":\"cats\",\"timeout\":\"5\"}").unwrap();
    assert_eq!(req.value, "cats");
    assert_eq!(req.timeout, 5);
}

#[test]
fn body_not_an_object_is_rejected() {
    assert_eq!(
        decode_request("[1,2]").unwrap_err(),
        RequestError::NotAStringMap
    );
    assert_eq!(
        decode_request("not json at all").unwrap_err(),
        RequestError::NotAStringMap
    );
}

#[test]
fn non_string_member_is_rejected() {
    assert_eq!(
        decode_request("{\"value\":7}").unwrap_err(),
        RequestError::NotAStringMap
    );
}

#[test]
fn bad_timeout_is_rejected() {
    assert_eq!(
        decode_request("{\"timeout\":\"abc\"}").unwrap_err(),
        RequestError::BadTimeout
    );
    assert_eq!(
        decode_request("{\"timeout\":\"-1\"}").unwrap_err(),
        RequestError::BadTimeout
    );
    assert_eq!(
        decode_request("{\"timeout\":\"99999999999999999999\"}").unwrap_err(),
        RequestError::BadTimeout
    );
}

#[test]
fn parse_u64_grammar() {
    assert_eq!(parse_u64("0"), Some(0));
    assert_eq!(parse_u64("10"), Some(10));
    assert_eq!(parse_u64("007"), Some(7));
    assert_eq!(parse_u64("18446744073709551615"), Some(u64::MAX));
    assert_eq!(parse_u64("18446744073709551616"), None);
    assert_eq!(parse_u64(""), None);
    assert_eq!(parse_u64("+5"), None);
    assert_eq!(parse_u64("1 2"), None);
}

#[test]
fn search_url_encodes_the_term() {
    assert_eq!(
        build_search_url("cats"),
        "https://archive.org/advancedsearch.php?q=cats&output=json"
    );
    assert_eq!(
        build_search_url("a b&c"),
        "https://archive.org/advancedsearch.php?q=a+b%26c&output=json"
    );
    assert_eq!(
        build_search_url("caf\u{e9}"),
        "https://archive.org/advancedsearch.php?q=caf%C3%A9&output=json"
    );
}

#[test]
fn resume_composition() {
    assert_eq!(compose_resume(Some("A"), Some("B")), "A - B");
    assert_eq!(compose_resume(Some("A"), None), "A");
    assert_eq!(compose_resume(None, Some("B")), " - B");
    assert_eq!(compose_resume(None, None), "");
}

#[test]
fn record_url_is_detail_page() {
    assert_eq!(record_url("foo123"), "https://archive.org/details/foo123");
}

#[test]
fn doc_without_identifier_yields_no_record() {
    let d = doc("{\"title\":\"A\",\"creator\":\"B\"}");
    assert!(record_for_doc(&d).is_none());
}

#[test]
fn doc_with_empty_identifier_yields_no_record() {
    let d = doc("{\"identifier\":\"\",\"title\":\"A\"}");
    assert!(record_for_doc(&d).is_none());
}

#[test]
fn doc_with_identifier_yields_record() {
    let d = doc("{\"identifier\":\"foo123\",\"title\":\"A\",\"creator\":\"B\"}");
    let rec = record_for_doc(&d).unwrap();
    assert_eq!(rec.url, "https://archive.org/details/foo123");
    assert_eq!(rec.resume, "A - B");
}

#[test]
fn invalid_upstream_payload_is_an_error() {
    assert_eq!(
        extract_links_from_results("{not json", 10).unwrap_err(),
        ExtractError::InvalidJson
    );
}

#[test]
fn missing_docs_is_empty_not_an_error() {
    assert!(extract_links_from_results("{\"response\":{}}", 10).unwrap().is_empty());
    assert!(extract_links_from_results("{}", 10).unwrap().is_empty());
    assert!(extract_links_from_results("{\"response\":{\"docs\":7}}", 10).unwrap().is_empty());
}

#[test]
fn zero_timeout_extracts_nothing() {
    let body = "{\"response\":{\"docs\":[{\"identifier\":\"x\",\"title\":\"T\"}]}}";
    assert!(extract_links_from_results(body, 0).unwrap().is_empty());
}

#[test]
fn extraction_keeps_document_order() {
    let body = "{\"response\":{\"docs\":[\
        {\"identifier\":\"one\"},\
        {\"identifier\":\"two\"},\
        {\"identifier\":\"three\"}]}}";
    let recs = extract_links_from_results(body, 10).unwrap();
    let urls: Vec<&str> = recs.iter().map(|r| r.url.as_str()).collect();
    assert_eq!(
        urls,
        vec![
            "https://archive.org/details/one",
            "https://archive.org/details/two",
            "https://archive.org/details/three"
        ]
    );
}

#[test]
fn empty_collection_serialization() {
    let empty: Vec<Record> = Vec::new();
    assert_eq!(serialize_embryo_list(&empty), "{\"embryo_list\": []}");
}

#[test]
fn serialization_escapes_strings() {
    let recs = vec![Record {
        url: "https://archive.org/details/x".to_string(),
        resume: "say \"hi\"\\now".to_string(),
    }];
    assert_eq!(
        serialize_embryo_list(&recs),
        "{\"embryo_list\": [{\"url\":\"https://archive.org/details/x\",\
         \"resume\":\"say \\\"hi\\\"\\\\now\"}]}"
    );
}

#[test]
fn fetch_failure_masked_as_empty() {
    assert_eq!(query_response_body(None, 5).unwrap(), "{\"embryo_list\": []}");
}

#[test]
fn end_to_end_two_docs_one_record() {
    let req = decode_request("{\"value\":\"cats\",\"timeout\":\"5\"}").unwrap();
    assert_eq!(req.value, "cats");
    assert_eq!(req.timeout, 5);
    assert_eq!(
        build_search_url(&req.value),
        "https://archive.org/advancedsearch.php?q=cats&output=json"
    );
    let upstream = "{\"response\":{\"docs\":[\
        {\"identifier\":\"abc\",\"title\":\"Some Title\"},\
        {\"title\":\"No Identifier\"}]}}";
    let body = query_response_body(Some(upstream.to_string()), req.timeout).unwrap();
    assert_eq!(
        body,
        "{\"embryo_list\": [{\"url\":\"https://archive.org/details/abc\",\
         \"resume\":\"Some Title\"}]}"
    );
}

#[test]
fn creator_only_doc_gets_leading_separator() {
    let d = doc("{\"identifier\":\"x\",\"creator\":\"B\"}");
    let rec = record_for_doc(&d).unwrap();
    assert_eq!(rec.resume, " - B");
}
