//! Bill summaries across bills.
use vstd::prelude::*;
use crate::decode::{
    Decode, text_ok, text_at, text_view, text_field, req_list_ok, req_list_is, req_list_field,
};
use crate::json::Json;

verus! {

/// A summary item.
#[derive(Debug, Clone, PartialEq, Eq)]
pub struct SummaryItem {
    pub action_date: Option<String>,
    pub action_desc: Option<String>,
    pub text: Option<String>,
    pub update_date: Option<String>,
    pub version_code: Option<String>,
}

impl Decode for SummaryItem {
    open spec fn accepts(j: Json) -> bool {
        &&& j is Object
        &&& text_ok(j, "actionDate"@)
        &&& text_ok(j, "actionDesc"@)
        &&& text_ok(j, "text"@)
        &&& text_ok(j, "updateDate"@)
        &&& text_ok(j, "versionCode"@)
    }

    open spec fn decoded_from(self, j: Json) -> bool {
        &&& text_view(self.action_date) == text_at(j, "actionDate"@)
        &&& text_view(self.action_desc) == text_at(j, "actionDesc"@)
        &&& text_view(self.text) == text_at(j, "text"@)
        &&& text_view(self.update_date) == text_at(j, "updateDate"@)
        &&& text_view(self.version_code) == text_at(j, "versionCode"@)
    }

    fn decode(j: &Json) -> (r: Option<Self>) {
        if !j.is_object() {
            return None;
        }
        let action_date = text_field(j, "actionDate")?;
        let action_desc = text_field(j, "actionDesc")?;
        let text = text_field(j, "text")?;
        let update_date = text_field(j, "updateDate")?;
        let version_code = text_field(j, "versionCode")?;
        Some(SummaryItem { action_date, action_desc, text, update_date, version_code })
    }
}

/// Envelope that holds `summaries`.
#[derive(Debug, Clone, PartialEq, Eq)]
pub struct SummariesListResponse {
    pub summaries: Vec<SummaryItem>,
}

impl Decode for SummariesListResponse {
    open spec fn accepts(j: Json) -> bool {
        &&& j is Object
        &&& req_list_ok::<SummaryItem>(j, "summaries"@)
    }

    open spec fn decoded_from(self, j: Json) -> bool {
        &&& req_list_is(self.summaries, j, "summaries"@)
    }

    fn decode(j: &Json) -> (r: Option<Self>) {
        if !j.is_object() {
            return None;
        }
        let summaries = req_list_field(j, "summaries")?;
        Some(SummariesListResponse { summaries })
    }
}

} // verus!
