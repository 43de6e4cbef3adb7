//! Committee hearings.
use vstd::prelude::*;
use crate::decode::{
    Decode, text_ok, text_at, text_view, text_field, i32_ok, i32_at, i32_field, record_ok,
    record_is, record_field, opt_list_ok, opt_list_is, list_field, req_list_ok, req_list_is,
    req_list_field, req_record_ok, req_record_is, req_record_field,
};
use crate::json::Json;

verus! {

/// A hearing date.
#[derive(Debug, Clone, PartialEq, Eq)]
pub struct HearingDate {
    pub date: Option<String>,
}

impl Decode for HearingDate {
    open spec fn accepts(j: Json) -> bool {
        &&& j is Object
        &&& text_ok(j, "date"@)
    }

    open spec fn decoded_from(self, j: Json) -> bool {
        &&& text_view(self.date) == text_at(j, "date"@)
    }

    fn decode(j: &Json) -> (r: Option<Self>) {
        if !j.is_object() {
            return None;
        }
        let date = text_field(j, "date")?;
        Some(HearingDate { date })
    }
}

/// An associated meeting.
#[derive(Debug, Clone, PartialEq, Eq)]
pub struct AssociatedMeeting {
    pub event_id: Option<String>,
    pub url: Option<String>,
}

impl Decode for AssociatedMeeting {
    open spec fn accepts(j: Json) -> bool {
        &&& j is Object
        &&& text_ok(j, "eventId"@)
        &&& text_ok(j, "url"@)
    }

    open spec fn decoded_from(self, j: Json) -> bool {
        &&& text_view(self.event_id) == text_at(j, "eventId"@)
        &&& text_view(self.url) == text_at(j, "url"@)
    }

    fn decode(j: &Json) -> (r: Option<Self>) {
        if !j.is_object() {
            return None;
        }
        let event_id = text_field(j, "eventId")?;
        let url = text_field(j, "url")?;
        Some(AssociatedMeeting { event_id, url })
    }
}

/// A format option for a hearing.
#[derive(Debug, Clone, PartialEq, Eq)]
pub struct HearingFormat {
    pub format_type: Option<String>,
    pub url: Option<String>,
}

impl Decode for HearingFormat {
    open spec fn accepts(j: Json) -> bool {
        &&& j is Object
        &&& text_ok(j, "type"@)
        &&& text_ok(j, "url"@)
    }

    open spec fn decoded_from(self, j: Json) -> bool {
        &&& text_view(self.format_type) == text_at(j, "type"@)
        &&& text_view(self.url) == text_at(j, "url"@)
    }

    fn decode(j: &Json) -> (r: Option<Self>) {
        if !j.is_object() {
            return None;
        }
        let format_type = text_field(j, "type")?;
        let url = text_field(j, "url")?;
        Some(HearingFormat { format_type, url })
    }
}

/// A committee/subcommittee in a hearing.
#[derive(Debug, Clone, PartialEq, Eq)]
pub struct HearingCommittee {
    pub name: Option<String>,
    pub system_code: Option<String>,
    pub url: Option<String>,
}

impl Decode for HearingCommittee {
    open spec fn accepts(j: Json) -> bool {
        &&& j is Object
        &&& text_ok(j, "name"@)
        &&& text_ok(j, "systemCode"@)
        &&& text_ok(j, "url"@)
    }

    open spec fn decoded_from(self, j: Json) -> bool {
        &&& text_view(self.name) == text_at(j, "name"@)
        &&& text_view(self.system_code) == text_at(j, "systemCode"@)
        &&& text_view(self.url) == text_at(j, "url"@)
    }

    fn decode(j: &Json) -> (r: Option<Self>) {
        if !j.is_object() {
            return None;
        }
        let name = text_field(j, "name")?;
        let system_code = text_field(j, "systemCode")?;
        let url = text_field(j, "url")?;
        Some(HearingCommittee { name, system_code, url })
    }
}

/// A hearing in list responses.
#[derive(Debug, Clone, PartialEq, Eq)]
pub struct Hearing {
    pub chamber: Option<String>,
    pub congress: Option<i32>,
    pub jacket_number: Option<i32>,
    pub number: Option<i32>,
    pub part: Option<i32>,
    pub title: Option<String>,
    pub update_date: Option<String>,
    pub url: Option<String>,
    pub associated_meeting: Option<AssociatedMeeting>,
    pub citation: Option<String>,
    pub committees: Option<Vec<HearingCommittee>>,
    pub dates: Option<Vec<HearingDate>>,
    pub formats: Option<Vec<HearingFormat>>,
    pub library_of_congress_identifier: Option<String>,
}

impl Decode for Hearing {
    open spec fn accepts(j: Json) -> bool {
        &&& j is Object
        &&& text_ok(j, "chamber"@)
        &&& i32_ok(j, "congress"@)
        &&& i32_ok(j, "jacketNumber"@)
        &&& i32_ok(j, "number"@)
        &&& i32_ok(j, "part"@)
        &&& text_ok(j, "title"@)
        &&& text_ok(j, "updateDate"@)
        &&& text_ok(j, "url"@)
        &&& record_ok::<AssociatedMeeting>(j, "associatedMeeting"@)
        &&& text_ok(j, "citation"@)
        &&& opt_list_ok::<HearingCommittee>(j, "committees"@)
        &&& opt_list_ok::<HearingDate>(j, "dates"@)
        &&& opt_list_ok::<HearingFormat>(j, "formats"@)
        &&& text_ok(j, "libraryOfCongressIdentifier"@)
    }

    open spec fn decoded_from(self, j: Json) -> bool {
        &&& text_view(self.chamber) == text_at(j, "chamber"@)
        &&& self.congress == i32_at(j, "congress"@)
        &&& self.jacket_number == i32_at(j, "jacketNumber"@)
        &&& self.number == i32_at(j, "number"@)
        &&& self.part == i32_at(j, "part"@)
        &&& text_view(self.title) == text_at(j, "title"@)
        &&& text_view(self.update_date) == text_at(j, "updateDate"@)
        &&& text_view(self.url) == text_at(j, "url"@)
        &&& record_is(self.associated_meeting, j, "associatedMeeting"@)
        &&& text_view(self.citation) == text_at(j, "citation"@)
        &&& opt_list_is(self.committees, j, "committees"@)
        &&& opt_list_is(self.dates, j, "dates"@)
        &&& opt_list_is(self.formats, j, "formats"@)
        &&& text_view(self.library_of_congress_identifier)
            == text_at(j, "libraryOfCongressIdentifier"@)
    }

    fn decode(j: &Json) -> (r: Option<Self>) {
        if !j.is_object() {
            return None;
        }
        let chamber = text_field(j, "chamber")?;
        let congress = i32_field(j, "congress")?;
        let jacket_number = i32_field(j, "jacketNumber")?;
        let number = i32_field(j, "number")?;
        let part = i32_field(j, "part")?;
        let title = text_field(j, "title")?;
        let update_date = text_field(j, "updateDate")?;
        let url = text_field(j, "url")?;
        let associated_meeting = record_field(j, "associatedMeeting")?;
        let citation = text_field(j, "citation")?;
        let committees = list_field(j, "committees")?;
        let dates = list_field(j, "dates")?;
        let formats = list_field(j, "formats")?;
        let library_of_congress_identifier = text_field(j, "libraryOfCongressIdentifier")?;
        Some(Hearing {
            chamber,
            congress,
            jacket_number,
            number,
            part,
            title,
            update_date,
            url,
            associated_meeting,
            citation,
            committees,
            dates,
            formats,
            library_of_congress_identifier,
        })
    }
}

/// Envelope that holds `hearings`.
#[derive(Debug, Clone, PartialEq, Eq)]
pub struct HearingsResponse {
    pub hearings: Vec<Hearing>,
}

impl Decode for HearingsResponse {
    open spec fn accepts(j: Json) -> bool {
        &&& j is Object
        &&& req_list_ok::<Hearing>(j, "hearings"@)
    }

    open spec fn decoded_from(self, j: Json) -> bool {
        &&& req_list_is(self.hearings, j, "hearings"@)
    }

    fn decode(j: &Json) -> (r: Option<Self>) {
        if !j.is_object() {
            return None;
        }
        let hearings = req_list_field(j, "hearings")?;
        Some(HearingsResponse { hearings })
    }
}

/// Envelope that holds `hearing`.
#[derive(Debug, Clone, PartialEq, Eq)]
pub struct HearingDetailResponse {
    pub hearing: Hearing,
}

impl Decode for HearingDetailResponse {
    open spec fn accepts(j: Json) -> bool {
        &&& j is Object
        &&& req_record_ok::<Hearing>(j, "hearing"@)
    }

    open spec fn decoded_from(self, j: Json) -> bool {
        &&& req_record_is(self.hearing, j, "hearing"@)
    }

    fn decode(j: &Json) -> (r: Option<Self>) {
        if !j.is_object() {
            return None;
        }
        let hearing = req_record_field(j, "hearing")?;
        Some(HearingDetailResponse { hearing })
    }
}

} // verus!
