//! Verified core of a small search service.
//!
//! The service takes a caller's search term and time budget, queries a public
//! archive's advanced-search API, extracts a bounded list of result records
//! from the upstream JSON response, and returns them as one JSON object.
//! This crate holds the whole query pipeline: decoding the inbound request,
//! building the encoded upstream URL, walking the upstream documents under
//! the time budget, and serializing the resulting records.  The HTTP server,
//! the outbound fetch, and the startup registration live outside it.

pub mod codec;
pub mod extract;
pub mod handler;
pub mod json;
pub mod record;
pub mod request;
pub mod upstream;
