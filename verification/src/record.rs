//! The normalized output entity: one record per usable upstream document.

use vstd::prelude::*;
use vstd::string::StringExecFns;

verus! {

/// Mathematical model of one record: its detail-page URL and its summary.
pub ghost struct RecordV {
    pub url: Seq<char>,
    pub resume: Seq<char>,
}

/// One normalized search result.  `url` points at the archive's detail page
/// for the document's identifier; `resume` is the human-readable summary
/// composed from the document's title and creator.
#[derive(Debug, Clone)]
pub struct Record {
    pub url: String,
    pub resume: String,
}

impl View for Record {
    type V = RecordV;

    open spec fn view(&self) -> RecordV {
        RecordV { url: self.url@, resume: self.resume@ }
    }
}

/// The models of a sequence of records.
pub open spec fn records_view(rs: Seq<Record>) -> Seq<RecordV> {
    rs.map_values(|rec: Record| rec@)
}

/// The view of an optional string slice.
pub open spec fn opt_str_view(o: Option<&str>) -> Option<Seq<char>> {
    match o {
        Some(s) => Some(s@),
        None => None,
    }
}

/// The summary of a document with the given optional title and creator: the
/// title if there is one, then `" - "` and the creator if there is one.  A
/// creator without a title yields a leading `" - "`; that composition order
/// is deliberate.
pub open spec fn resume_of(title: Option<Seq<char>>, creator: Option<Seq<char>>) -> Seq<char> {
    let base = match title {
        Some(t) => t,
        None => Seq::<char>::empty(),
    };
    match creator {
        Some(c) => base + " - "@ + c,
        None => base,
    }
}

/// The detail-page URL for an identifier, used verbatim.
pub open spec fn record_url_of(identifier: Seq<char>) -> Seq<char> {
    "https://archive.org/details/"@ + identifier
}

/// Composes the summary of a document from its optional title and creator.
pub fn compose_resume(title: Option<&str>, creator: Option<&str>) -> (r: String)
    ensures
        r@ == resume_of(opt_str_view(title), opt_str_view(creator)),
{
    let base = match title {
        Some(t) => t.to_owned(),
        None => String::new(),
    };
    match creator {
        Some(c) => {
            let mut r = base;
            r.append(" - ");
            r.append(c);
            r
        },
        None => base,
    }
}

/// Builds the detail-page URL for an identifier.
pub fn record_url(identifier: &str) -> (r: String)
    ensures
        r@ == record_url_of(identifier@),
{
    let mut r = "https://archive.org/details/".to_owned();
    r.append(identifier);
    r
}

} // verus!
