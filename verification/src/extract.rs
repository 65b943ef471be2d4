//! Extraction of records from the upstream response.
//!
//! The upstream payload is JSON with the result documents under
//! `response.docs`.  The documents are walked in order under a wall-clock
//! budget: before each document the elapsed whole seconds are checked
//! against the budget, and the walk stops with whatever has been
//! accumulated once the budget is exhausted.  A document yields a record
//! exactly when it holds a non-empty string `identifier`.

use vstd::prelude::*;
use crate::json::{
    JsonV,
    field_of,
    str_field_of,
    models_of,
    json_model_of,
    value_model,
    parse_json,
    get_field,
    as_array,
    get_str_field,
};
use crate::record::{Record, RecordV, records_view, resume_of, record_url_of, compose_resume,
    record_url};

verus! {

/// Why extraction failed for a request.
#[derive(Debug, PartialEq, Eq)]
pub enum ExtractError {
    /// The upstream payload is not valid JSON.
    InvalidJson,
}

/// The documents of an upstream payload: the array under `response.docs`,
/// or `None` where the path is missing or not an array.
pub open spec fn docs_of(j: JsonV) -> Option<Seq<JsonV>> {
    match field_of(j, "response"@) {
        Some(resp) => match field_of(resp, "docs"@) {
            Some(JsonV::Arr(a)) => Some(a),
            _ => None,
        },
        None => None,
    }
}

/// The record that one document yields: `Some` exactly when the document
/// holds a non-empty string `identifier`, with the detail-page URL for that
/// identifier and the summary composed from `title` and `creator`.
pub open spec fn doc_record(d: JsonV) -> Option<RecordV> {
    match str_field_of(d, "identifier"@) {
        Some(id) => if id.len() > 0 {
            Some(
                RecordV {
                    url: record_url_of(id),
                    resume: resume_of(str_field_of(d, "title"@), str_field_of(d, "creator"@)),
                },
            )
        } else {
            None
        },
        None => None,
    }
}

/// The records of the first `k` documents, in document order.
pub open spec fn records_of(docs: Seq<JsonV>, k: int) -> Seq<RecordV>
    decreases k,
{
    if k <= 0 {
        Seq::<RecordV>::empty()
    } else {
        records_of(docs, k - 1) + match doc_record(docs[k - 1]) {
            Some(r) => seq![r],
            None => Seq::<RecordV>::empty(),
        }
    }
}

/// The records of a shorter prefix of the documents are a prefix of the
/// records of a longer one: stopping the walk early only truncates the
/// result, it never reorders or rewrites the records already extracted.
pub proof fn lemma_partial_results_are_prefix(docs: Seq<JsonV>, k1: int, k2: int)
    requires
        0 <= k1 <= k2,
    ensures
        records_of(docs, k1).is_prefix_of(records_of(docs, k2)),
    decreases k2 - k1,
{
    if k1 == k2 {
        assert(records_of(docs, k1).is_prefix_of(records_of(docs, k2)));
    } else {
        lemma_partial_results_are_prefix(docs, k1, k2 - 1);
        assert(records_of(docs, k2 - 1).is_prefix_of(records_of(docs, k2)));
    }
}

#[verifier::external_type_specification]
#[verifier::external_body]
pub struct ExInstant(std::time::Instant);

/// Relies on `std::time::Instant::now`: a moment to measure elapsed time
/// from.  Nothing is assumed of the value.
#[verifier::external_body]
fn monotonic_now() -> std::time::Instant {
    std::time::Instant::now()
}

/// Relies on `std::time::Instant::elapsed`: the time since the instant.
/// Nothing is assumed of the value; in particular two calls may disagree.
#[verifier::external_body]
fn elapsed_since(start: &std::time::Instant) -> std::time::Duration {
    start.elapsed()
}

/// Relies on `std::time::Duration::as_secs`: the duration in whole seconds.
/// Nothing is assumed of the value.
#[verifier::external_body]
fn duration_whole_secs(d: std::time::Duration) -> u64 {
    d.as_secs()
}

/// Turns one upstream document into a record: `Some` exactly when the
/// document holds a non-empty string `identifier`.  A document without one
/// never yields a record, whatever else it holds, and the record's URL is
/// the archive's detail page for the identifier, taken verbatim.
pub fn record_for_doc(doc: &serde_json::Value) -> (r: Option<Record>)
    ensures
        match doc_record(value_model(*doc)) {
            Some(rv) => r matches Some(rec) && rec@ == rv,
            None => r is None,
        },
        str_field_of(value_model(*doc), "identifier"@) is None ==> r is None,
        match str_field_of(value_model(*doc), "identifier"@) {
            Some(id) => id.len() > 0 ==> (r matches Some(rec) && rec@.url == record_url_of(id)),
            None => r is None,
        },
{
    let title = get_str_field(doc, "title");
    let creator = get_str_field(doc, "creator");
    let resume = compose_resume(title, creator);
    match get_str_field(doc, "identifier") {
        Some(id) => if id.unicode_len() > 0 {
            Some(Record { url: record_url(id), resume })
        } else {
            None
        },
        None => None,
    }
}

/// Walks the documents in order under the wall-clock budget.  The result is
/// the records of some prefix of the documents: the whole array where the
/// budget never ran out, and whatever had been accumulated where it did.
/// The budget is checked before each document, so a budget of zero seconds
/// yields no records at all.
pub fn extract_records(docs: &Vec<serde_json::Value>, timeout_secs: u64) -> (r: Vec<Record>)
    ensures
        exists|k: int|
            0 <= k <= docs@.len() && records_view(r@) == records_of(models_of(docs@), k),
        records_view(r@).is_prefix_of(records_of(models_of(docs@), docs@.len() as int)),
        timeout_secs == 0 ==> r@.len() == 0,
{
    let start = monotonic_now();
    let n = docs.len();
    let mut out: Vec<Record> = Vec::new();
    let mut i: usize = 0;
    while i < n
        invariant
            n == docs@.len(),
            i <= n,
            records_view(out@) == records_of(models_of(docs@), i as int),
            timeout_secs == 0 ==> i == 0,
        decreases n - i,
    {
        if duration_whole_secs(elapsed_since(&start)) >= timeout_secs {
            proof {
                lemma_partial_results_are_prefix(models_of(docs@), i as int, n as int);
            }
            return out;
        }
        let ghost prev = out@;
        match record_for_doc(&docs[i]) {
            Some(rec) => {
                out.push(rec);
                proof {
                    assert(records_view(out@) =~= records_view(prev) + seq![out@.last()@]);
                }
            },
            None => {},
        }
        proof {
            assert(models_of(docs@)[i as int] == value_model(docs@[i as int]));
        }
        i += 1;
    }
    proof {
        lemma_partial_results_are_prefix(models_of(docs@), n as int, n as int);
    }
    out
}

/// Produces the record collection for an upstream payload: an error where
/// the payload is not valid JSON, an empty collection where it has no
/// `response.docs` array, and otherwise the records of a prefix of the
/// documents, cut where the wall-clock budget ran out.
pub fn extract_links_from_results(json_data: &str, timeout_secs: u64) -> (r: Result<
    Vec<Record>,
    ExtractError,
>)
    ensures
        r is Err <==> json_model_of(json_data@) is None,
        match json_model_of(json_data@) {
            None => r matches Err(e) && e == ExtractError::InvalidJson,
            Some(j) => match docs_of(j) {
                None => r matches Ok(v) && v@.len() == 0,
                Some(ds) => r matches Ok(v) && (exists|k: int|
                    0 <= k <= ds.len() && records_view(v@) == records_of(ds, k)) && (timeout_secs
                    == 0 ==> v@.len() == 0),
            },
        },
{
    let parsed = match parse_json(json_data) {
        Some(v) => v,
        None => {
            return Err(ExtractError::InvalidJson);
        },
    };
    let recs: Vec<Record> = match get_field(&parsed, "response") {
        Some(resp) => match get_field(resp, "docs") {
            Some(d) => match as_array(d) {
                Some(arr) => {
                    let out = extract_records(arr, timeout_secs);
                    proof {
                        let ds = docs_of(value_model(parsed)).unwrap();
                        assert(models_of(arr@) =~= ds);
                    }
                    out
                },
                None => Vec::new(),
            },
            None => Vec::new(),
        },
        None => Vec::new(),
    };
    Ok(recs)
}

} // verus!
