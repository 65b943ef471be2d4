//! The request handler's computing core: from the outcome of the upstream
//! fetch to the serialized response body.
//!
//! A fetch failure is deliberately masked: the caller gets a successful,
//! empty collection, the same as for a search with no matches.  A payload
//! that is not valid JSON, by contrast, fails the request.

use vstd::prelude::*;
use crate::codec::{embryo_list_json, serialize_embryo_list};
use crate::extract::{ExtractError, docs_of, records_of, extract_links_from_results};
use crate::json::json_model_of;
use crate::record::{Record, RecordV, records_view};
use crate::request::decoded_value;
use crate::upstream::{search_url_of, url_encoded_term};
use vstd::utf8::encode_utf8;

verus! {

/// Produces the response body for the outcome of the upstream fetch: the
/// serialized records of the payload where one arrived, the serialized
/// empty collection where the fetch failed, and an error only where the
/// payload is not valid JSON.
pub fn query_response_body(fetched: Option<String>, timeout_secs: u64) -> (r: Result<
    String,
    ExtractError,
>)
    ensures
        match fetched {
            None => r matches Ok(s) && s@ == embryo_list_json(Seq::<RecordV>::empty()),
            Some(body) => match json_model_of(body@) {
                None => r matches Err(e) && e == ExtractError::InvalidJson,
                Some(j) => match docs_of(j) {
                    None => r matches Ok(s) && s@ == embryo_list_json(Seq::<RecordV>::empty()),
                    Some(ds) => r matches Ok(s) && (exists|k: int|
                        0 <= k <= ds.len() && s@ == embryo_list_json(records_of(ds, k))) && (
                    timeout_secs == 0 ==> s@ == embryo_list_json(Seq::<RecordV>::empty())),
                },
            },
        },
{
    let records: Vec<Record> = match &fetched {
        None => Vec::new(),
        Some(body) => match extract_links_from_results(body.as_str(), timeout_secs) {
            Ok(rs) => rs,
            Err(e) => {
                return Err(e);
            },
        },
    };
    proof {
        if records@.len() == 0 {
            assert(records_view(records@) =~= Seq::<RecordV>::empty());
        }
    }
    let out = serialize_embryo_list(&records);
    proof {
        match fetched {
            None => {},
            Some(body) => match json_model_of(body@) {
                None => {},
                Some(j) => match docs_of(j) {
                    None => {},
                    Some(ds) => {
                        let k = choose|k: int|
                            0 <= k <= ds.len() && records_view(records@) == records_of(ds, k);
                        assert(out@ == embryo_list_json(records_of(ds, k)));
                    },
                },
            },
        }
    }
    Ok(out)
}

/// A valid inbound body with no `value` member always yields the empty
/// search term, and the outbound query for the empty term is still the
/// well-formed fixed URL with nothing between the base and the suffix.
pub proof fn lemma_no_value_means_empty_term(m: Map<Seq<char>, Seq<char>>)
    requires
        !m.contains_key("value"@),
    ensures
        decoded_value(m) == Seq::<char>::empty(),
        search_url_of(decoded_value(m)) == "https://archive.org/advancedsearch.php?q="@
            + "&output=json"@,
{
    assert(encode_utf8(Seq::<char>::empty()) =~= Seq::<u8>::empty());
    assert(url_encoded_term(Seq::<char>::empty()) =~= Seq::<char>::empty());
    assert(search_url_of(Seq::<char>::empty()) =~= "https://archive.org/advancedsearch.php?q="@
        + "&output=json"@);
}

/// Serializing the empty record collection yields exactly
/// `{"embryo_list": []}`.
pub proof fn lemma_empty_collection_serialization()
    ensures
        embryo_list_json(Seq::<RecordV>::empty()) == "{\"embryo_list\": []}"@,
{
    reveal_strlit("{\"embryo_list\": [");
    reveal_strlit("]}");
    reveal_strlit("{\"embryo_list\": []}");
    assert(embryo_list_json(Seq::<RecordV>::empty()) =~= "{\"embryo_list\": []}"@);
}

} // verus!
