//! Typed client for the congress.gov v3 REST API.
//!
//! The library builds every request (path and query parameters), checks the
//! response status and decodes JSON bodies into records. Sending the request
//! and parsing the body text into a [`json::Json`] value is left to the caller.
use vstd::prelude::*;

pub mod bills;
pub mod client;
pub mod committees;
pub mod congressional_record;
pub mod crsreport;
pub mod decode;
pub mod hearings;
pub mod house_votes;
pub mod json;
pub mod laws;
pub mod members;
pub mod nominations;
pub mod request;
pub mod sessions;
pub mod summaries;
pub mod text;
pub mod treaties;

verus! {

} // verus!
