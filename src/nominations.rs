//! Nominations and nominees.
use vstd::prelude::*;
use crate::decode::{
    Decode, text_ok, text_at, text_view, text_field, i32_ok, i32_at, i32_field, req_list_ok,
    req_list_is, req_list_field, req_record_ok, req_record_is, req_record_field,
};
use crate::json::Json;

verus! {

/// A nomination.
#[derive(Debug, Clone, PartialEq, Eq)]
pub struct Nomination {
    pub congress: Option<i32>,
    pub number: Option<String>,
    pub part_number: Option<String>,
    pub citation: Option<String>,
    pub description: Option<String>,
    pub received_date: Option<String>,
    pub update_date: Option<String>,
    pub url: Option<String>,
}

impl Decode for Nomination {
    open spec fn accepts(j: Json) -> bool {
        &&& j is Object
        &&& i32_ok(j, "congress"@)
        &&& text_ok(j, "number"@)
        &&& text_ok(j, "partNumber"@)
        &&& text_ok(j, "citation"@)
        &&& text_ok(j, "description"@)
        &&& text_ok(j, "receivedDate"@)
        &&& text_ok(j, "updateDate"@)
        &&& text_ok(j, "url"@)
    }

    open spec fn decoded_from(self, j: Json) -> bool {
        &&& self.congress == i32_at(j, "congress"@)
        &&& text_view(self.number) == text_at(j, "number"@)
        &&& text_view(self.part_number) == text_at(j, "partNumber"@)
        &&& text_view(self.citation) == text_at(j, "citation"@)
        &&& text_view(self.description) == text_at(j, "description"@)
        &&& text_view(self.received_date) == text_at(j, "receivedDate"@)
        &&& text_view(self.update_date) == text_at(j, "updateDate"@)
        &&& text_view(self.url) == text_at(j, "url"@)
    }

    fn decode(j: &Json) -> (r: Option<Self>) {
        if !j.is_object() {
            return None;
        }
        let congress = i32_field(j, "congress")?;
        let number = text_field(j, "number")?;
        let part_number = text_field(j, "partNumber")?;
        let citation = text_field(j, "citation")?;
        let description = text_field(j, "description")?;
        let received_date = text_field(j, "receivedDate")?;
        let update_date = text_field(j, "updateDate")?;
        let url = text_field(j, "url")?;
        Some(Nomination {
            congress,
            number,
            part_number,
            citation,
            description,
            received_date,
            update_date,
            url,
        })
    }
}

/// A nominee.
#[derive(Debug, Clone, PartialEq, Eq)]
pub struct Nominee {
    pub first_name: Option<String>,
    pub last_name: Option<String>,
    pub name: Option<String>,
    pub position: Option<String>,
    pub state: Option<String>,
}

impl Decode for Nominee {
    open spec fn accepts(j: Json) -> bool {
        &&& j is Object
        &&& text_ok(j, "firstName"@)
        &&& text_ok(j, "lastName"@)
        &&& text_ok(j, "name"@)
        &&& text_ok(j, "position"@)
        &&& text_ok(j, "state"@)
    }

    open spec fn decoded_from(self, j: Json) -> bool {
        &&& text_view(self.first_name) == text_at(j, "firstName"@)
        &&& text_view(self.last_name) == text_at(j, "lastName"@)
        &&& text_view(self.name) == text_at(j, "name"@)
        &&& text_view(self.position) == text_at(j, "position"@)
        &&& text_view(self.state) == text_at(j, "state"@)
    }

    fn decode(j: &Json) -> (r: Option<Self>) {
        if !j.is_object() {
            return None;
        }
        let first_name = text_field(j, "firstName")?;
        let last_name = text_field(j, "lastName")?;
        let name = text_field(j, "name")?;
        let position = text_field(j, "position")?;
        let state = text_field(j, "state")?;
        Some(Nominee { first_name, last_name, name, position, state })
    }
}

/// Envelope that holds `nominations`.
#[derive(Debug, Clone, PartialEq, Eq)]
pub struct NominationsResponse {
    pub nominations: Vec<Nomination>,
}

impl Decode for NominationsResponse {
    open spec fn accepts(j: Json) -> bool {
        &&& j is Object
        &&& req_list_ok::<Nomination>(j, "nominations"@)
    }

    open spec fn decoded_from(self, j: Json) -> bool {
        &&& req_list_is(self.nominations, j, "nominations"@)
    }

    fn decode(j: &Json) -> (r: Option<Self>) {
        if !j.is_object() {
            return None;
        }
        let nominations = req_list_field(j, "nominations")?;
        Some(NominationsResponse { nominations })
    }
}

/// Envelope that holds `nomination`.
#[derive(Debug, Clone, PartialEq, Eq)]
pub struct NominationDetailResponse {
    pub nomination: Nomination,
}

impl Decode for NominationDetailResponse {
    open spec fn accepts(j: Json) -> bool {
        &&& j is Object
        &&& req_record_ok::<Nomination>(j, "nomination"@)
    }

    open spec fn decoded_from(self, j: Json) -> bool {
        &&& req_record_is(self.nomination, j, "nomination"@)
    }

    fn decode(j: &Json) -> (r: Option<Self>) {
        if !j.is_object() {
            return None;
        }
        let nomination = req_record_field(j, "nomination")?;
        Some(NominationDetailResponse { nomination })
    }
}

/// Envelope that holds `nominees`.
#[derive(Debug, Clone, PartialEq, Eq)]
pub struct NomineesResponse {
    pub nominees: Vec<Nominee>,
}

impl Decode for NomineesResponse {
    open spec fn accepts(j: Json) -> bool {
        &&& j is Object
        &&& req_list_ok::<Nominee>(j, "nominees"@)
    }

    open spec fn decoded_from(self, j: Json) -> bool {
        &&& req_list_is(self.nominees, j, "nominees"@)
    }

    fn decode(j: &Json) -> (r: Option<Self>) {
        if !j.is_object() {
            return None;
        }
        let nominees = req_list_field(j, "nominees")?;
        Some(NomineesResponse { nominees })
    }
}

} // verus!
