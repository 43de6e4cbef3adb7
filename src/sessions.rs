//! Congresses and their sessions.
use vstd::prelude::*;
use crate::decode::{
    Decode, text_ok, text_at, text_view, text_field, i32_ok, i32_at, i32_field, opt_list_ok,
    opt_list_is, list_field, req_list_ok, req_list_is, req_list_field, req_record_ok,
    req_record_is, req_record_field,
};
use crate::json::Json;

verus! {

/// A Congressional session.
#[derive(Debug, Clone, PartialEq, Eq)]
pub struct Session {
    pub chamber: Option<String>,
    pub number: Option<i32>,
    pub start_date: Option<String>,
    pub end_date: Option<String>,
}

impl Decode for Session {
    open spec fn accepts(j: Json) -> bool {
        &&& j is Object
        &&& text_ok(j, "chamber"@)
        &&& i32_ok(j, "number"@)
        &&& text_ok(j, "startDate"@)
        &&& text_ok(j, "endDate"@)
    }

    open spec fn decoded_from(self, j: Json) -> bool {
        &&& text_view(self.chamber) == text_at(j, "chamber"@)
        &&& self.number == i32_at(j, "number"@)
        &&& text_view(self.start_date) == text_at(j, "startDate"@)
        &&& text_view(self.end_date) == text_at(j, "endDate"@)
    }

    fn decode(j: &Json) -> (r: Option<Self>) {
        if !j.is_object() {
            return None;
        }
        let chamber = text_field(j, "chamber")?;
        let number = i32_field(j, "number")?;
        let start_date = text_field(j, "startDate")?;
        let end_date = text_field(j, "endDate")?;
        Some(Session { chamber, number, start_date, end_date })
    }
}

/// A Congress with its sessions.
#[derive(Debug, Clone, PartialEq, Eq)]
pub struct Congress {
    pub end_year: Option<String>,
    pub name: Option<String>,
    pub sessions: Option<Vec<Session>>,
    pub start_year: Option<String>,
    pub url: Option<String>,
}

impl Decode for Congress {
    open spec fn accepts(j: Json) -> bool {
        &&& j is Object
        &&& text_ok(j, "endYear"@)
        &&& text_ok(j, "name"@)
        &&& opt_list_ok::<Session>(j, "sessions"@)
        &&& text_ok(j, "startYear"@)
        &&& text_ok(j, "url"@)
    }

    open spec fn decoded_from(self, j: Json) -> bool {
        &&& text_view(self.end_year) == text_at(j, "endYear"@)
        &&& text_view(self.name) == text_at(j, "name"@)
        &&& opt_list_is(self.sessions, j, "sessions"@)
        &&& text_view(self.start_year) == text_at(j, "startYear"@)
        &&& text_view(self.url) == text_at(j, "url"@)
    }

    fn decode(j: &Json) -> (r: Option<Self>) {
        if !j.is_object() {
            return None;
        }
        let end_year = text_field(j, "endYear")?;
        let name = text_field(j, "name")?;
        let sessions = list_field(j, "sessions")?;
        let start_year = text_field(j, "startYear")?;
        let url = text_field(j, "url")?;
        Some(Congress { end_year, name, sessions, start_year, url })
    }
}

/// Envelope of congress list.
#[derive(Debug, Clone, PartialEq, Eq)]
pub struct CongressesResponse {
    pub congresses: Vec<Congress>,
}

impl Decode for CongressesResponse {
    open spec fn accepts(j: Json) -> bool {
        &&& j is Object
        &&& req_list_ok::<Congress>(j, "congresses"@)
    }

    open spec fn decoded_from(self, j: Json) -> bool {
        &&& req_list_is(self.congresses, j, "congresses"@)
    }

    fn decode(j: &Json) -> (r: Option<Self>) {
        if !j.is_object() {
            return None;
        }
        let congresses = req_list_field(j, "congresses")?;
        Some(CongressesResponse { congresses })
    }
}

/// Envelope of a single congress.
#[derive(Debug, Clone, PartialEq, Eq)]
pub struct CongressResponse {
    pub congress: Congress,
}

impl Decode for CongressResponse {
    open spec fn accepts(j: Json) -> bool {
        &&& j is Object
        &&& req_record_ok::<Congress>(j, "congress"@)
    }

    open spec fn decoded_from(self, j: Json) -> bool {
        &&& req_record_is(self.congress, j, "congress"@)
    }

    fn decode(j: &Json) -> (r: Option<Self>) {
        if !j.is_object() {
            return None;
        }
        let congress = req_record_field(j, "congress")?;
        Some(CongressResponse { congress })
    }
}

} // verus!
