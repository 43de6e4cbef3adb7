//! Issues of the daily Congressional Record.
use vstd::prelude::*;
use crate::decode::{
    Decode, text_ok, text_at, text_view, text_field, i32_ok, i32_at, i32_field, req_list_ok,
    req_list_is, req_list_field,
};
use crate::json::Json;

verus! {

/// A daily congressional record.
#[derive(Debug, Clone, PartialEq, Eq)]
pub struct DailyCongressionalRecord {
    pub issue_number: Option<String>,
    pub volume_number: Option<i32>,
    pub issue_date: Option<String>,
    pub congress: Option<i32>,
    pub session: Option<i32>,
    pub update_date: Option<String>,
    pub url: Option<String>,
}

impl Decode for DailyCongressionalRecord {
    open spec fn accepts(j: Json) -> bool {
        &&& j is Object
        &&& text_ok(j, "issueNumber"@)
        &&& i32_ok(j, "volumeNumber"@)
        &&& text_ok(j, "issueDate"@)
        &&& i32_ok(j, "congress"@)
        &&& i32_ok(j, "session"@)
        &&& text_ok(j, "updateDate"@)
        &&& text_ok(j, "url"@)
    }

    open spec fn decoded_from(self, j: Json) -> bool {
        &&& text_view(self.issue_number) == text_at(j, "issueNumber"@)
        &&& self.volume_number == i32_at(j, "volumeNumber"@)
        &&& text_view(self.issue_date) == text_at(j, "issueDate"@)
        &&& self.congress == i32_at(j, "congress"@)
        &&& self.session == i32_at(j, "session"@)
        &&& text_view(self.update_date) == text_at(j, "updateDate"@)
        &&& text_view(self.url) == text_at(j, "url"@)
    }

    fn decode(j: &Json) -> (r: Option<Self>) {
        if !j.is_object() {
            return None;
        }
        let issue_number = text_field(j, "issueNumber")?;
        let volume_number = i32_field(j, "volumeNumber")?;
        let issue_date = text_field(j, "issueDate")?;
        let congress = i32_field(j, "congress")?;
        let session = i32_field(j, "session")?;
        let update_date = text_field(j, "updateDate")?;
        let url = text_field(j, "url")?;
        Some(DailyCongressionalRecord {
            issue_number,
            volume_number,
            issue_date,
            congress,
            session,
            update_date,
            url,
        })
    }
}

/// Envelope that holds `dailyCongressionalRecord`.
#[derive(Debug, Clone, PartialEq, Eq)]
pub struct DailyCongressionalRecordsResponse {
    pub daily_congressional_record: Vec<DailyCongressionalRecord>,
}

impl Decode for DailyCongressionalRecordsResponse {
    open spec fn accepts(j: Json) -> bool {
        &&& j is Object
        &&& req_list_ok::<DailyCongressionalRecord>(j, "dailyCongressionalRecord"@)
    }

    open spec fn decoded_from(self, j: Json) -> bool {
        &&& req_list_is(self.daily_congressional_record, j, "dailyCongressionalRecord"@)
    }

    fn decode(j: &Json) -> (r: Option<Self>) {
        if !j.is_object() {
            return None;
        }
        let daily_congressional_record = req_list_field(j, "dailyCongressionalRecord")?;
        Some(DailyCongressionalRecordsResponse { daily_congressional_record })
    }
}

} // verus!
