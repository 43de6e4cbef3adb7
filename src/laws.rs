//! Laws, reached through the bill that became them.
use vstd::prelude::*;
use crate::decode::{
    Decode, text_ok, text_at, text_view, text_field, i32_ok, i32_at, i32_field, record_ok,
    record_is, record_field, opt_list_ok, opt_list_is, list_field, req_list_ok, req_list_is,
    req_list_field, req_record_ok, req_record_is, req_record_field,
};
use crate::json::Json;
use crate::bills::LatestAction;
use crate::bills::Law;

verus! {

/// A bill that became a law.
#[derive(Debug, Clone, PartialEq, Eq)]
pub struct LawItem {
    pub congress: Option<i32>,
    pub latest_action: Option<LatestAction>,
    pub laws: Option<Vec<Law>>,
    pub number: Option<String>,
    pub origin_chamber: Option<String>,
    pub origin_chamber_code: Option<String>,
    pub title: Option<String>,
    pub law_type: Option<String>,
    pub update_date: Option<String>,
    pub update_date_including_text: Option<String>,
    pub url: Option<String>,
}

impl Decode for LawItem {
    open spec fn accepts(j: Json) -> bool {
        &&& j is Object
        &&& i32_ok(j, "congress"@)
        &&& record_ok::<LatestAction>(j, "latestAction"@)
        &&& opt_list_ok::<Law>(j, "laws"@)
        &&& text_ok(j, "number"@)
        &&& text_ok(j, "originChamber"@)
        &&& text_ok(j, "originChamberCode"@)
        &&& text_ok(j, "title"@)
        &&& text_ok(j, "type"@)
        &&& text_ok(j, "updateDate"@)
        &&& text_ok(j, "updateDateIncludingText"@)
        &&& text_ok(j, "url"@)
    }

    open spec fn decoded_from(self, j: Json) -> bool {
        &&& self.congress == i32_at(j, "congress"@)
        &&& record_is(self.latest_action, j, "latestAction"@)
        &&& opt_list_is(self.laws, j, "laws"@)
        &&& text_view(self.number) == text_at(j, "number"@)
        &&& text_view(self.origin_chamber) == text_at(j, "originChamber"@)
        &&& text_view(self.origin_chamber_code) == text_at(j, "originChamberCode"@)
        &&& text_view(self.title) == text_at(j, "title"@)
        &&& text_view(self.law_type) == text_at(j, "type"@)
        &&& text_view(self.update_date) == text_at(j, "updateDate"@)
        &&& text_view(self.update_date_including_text) == text_at(j, "updateDateIncludingText"@)
        &&& text_view(self.url) == text_at(j, "url"@)
    }

    fn decode(j: &Json) -> (r: Option<Self>) {
        if !j.is_object() {
            return None;
        }
        let congress = i32_field(j, "congress")?;
        let latest_action = record_field(j, "latestAction")?;
        let laws = list_field(j, "laws")?;
        let number = text_field(j, "number")?;
        let origin_chamber = text_field(j, "originChamber")?;
        let origin_chamber_code = text_field(j, "originChamberCode")?;
        let title = text_field(j, "title")?;
        let law_type = text_field(j, "type")?;
        let update_date = text_field(j, "updateDate")?;
        let update_date_including_text = text_field(j, "updateDateIncludingText")?;
        let url = text_field(j, "url")?;
        Some(LawItem {
            congress,
            latest_action,
            laws,
            number,
            origin_chamber,
            origin_chamber_code,
            title,
            law_type,
            update_date,
            update_date_including_text,
            url,
        })
    }
}

/// Full details of a bill that became a law.
#[derive(Debug, Clone, PartialEq, Eq)]
pub struct LawDetail {
    pub congress: Option<i32>,
    pub latest_action: Option<LatestAction>,
    pub laws: Option<Vec<Law>>,
    pub number: Option<String>,
    pub origin_chamber: Option<String>,
    pub origin_chamber_code: Option<String>,
    pub title: Option<String>,
    pub law_type: Option<String>,
    pub update_date: Option<String>,
    pub update_date_including_text: Option<String>,
    pub url: Option<String>,
}

impl Decode for LawDetail {
    open spec fn accepts(j: Json) -> bool {
        &&& j is Object
        &&& i32_ok(j, "congress"@)
        &&& record_ok::<LatestAction>(j, "latestAction"@)
        &&& opt_list_ok::<Law>(j, "laws"@)
        &&& text_ok(j, "number"@)
        &&& text_ok(j, "originChamber"@)
        &&& text_ok(j, "originChamberCode"@)
        &&& text_ok(j, "title"@)
        &&& text_ok(j, "type"@)
        &&& text_ok(j, "updateDate"@)
        &&& text_ok(j, "updateDateIncludingText"@)
        &&& text_ok(j, "url"@)
    }

    open spec fn decoded_from(self, j: Json) -> bool {
        &&& self.congress == i32_at(j, "congress"@)
        &&& record_is(self.latest_action, j, "latestAction"@)
        &&& opt_list_is(self.laws, j, "laws"@)
        &&& text_view(self.number) == text_at(j, "number"@)
        &&& text_view(self.origin_chamber) == text_at(j, "originChamber"@)
        &&& text_view(self.origin_chamber_code) == text_at(j, "originChamberCode"@)
        &&& text_view(self.title) == text_at(j, "title"@)
        &&& text_view(self.law_type) == text_at(j, "type"@)
        &&& text_view(self.update_date) == text_at(j, "updateDate"@)
        &&& text_view(self.update_date_including_text) == text_at(j, "updateDateIncludingText"@)
        &&& text_view(self.url) == text_at(j, "url"@)
    }

    fn decode(j: &Json) -> (r: Option<Self>) {
        if !j.is_object() {
            return None;
        }
        let congress = i32_field(j, "congress")?;
        let latest_action = record_field(j, "latestAction")?;
        let laws = list_field(j, "laws")?;
        let number = text_field(j, "number")?;
        let origin_chamber = text_field(j, "originChamber")?;
        let origin_chamber_code = text_field(j, "originChamberCode")?;
        let title = text_field(j, "title")?;
        let law_type = text_field(j, "type")?;
        let update_date = text_field(j, "updateDate")?;
        let update_date_including_text = text_field(j, "updateDateIncludingText")?;
        let url = text_field(j, "url")?;
        Some(LawDetail {
            congress,
            latest_action,
            laws,
            number,
            origin_chamber,
            origin_chamber_code,
            title,
            law_type,
            update_date,
            update_date_including_text,
            url,
        })
    }
}

/// Envelope that holds `bills`.
#[derive(Debug, Clone, PartialEq, Eq)]
pub struct LawsResponse {
    pub bills: Vec<LawItem>,
}

impl Decode for LawsResponse {
    open spec fn accepts(j: Json) -> bool {
        &&& j is Object
        &&& req_list_ok::<LawItem>(j, "bills"@)
    }

    open spec fn decoded_from(self, j: Json) -> bool {
        &&& req_list_is(self.bills, j, "bills"@)
    }

    fn decode(j: &Json) -> (r: Option<Self>) {
        if !j.is_object() {
            return None;
        }
        let bills = req_list_field(j, "bills")?;
        Some(LawsResponse { bills })
    }
}

/// Envelope that holds `bill`.
#[derive(Debug, Clone, PartialEq, Eq)]
pub struct LawDetailResponse {
    pub bill: LawDetail,
}

impl Decode for LawDetailResponse {
    open spec fn accepts(j: Json) -> bool {
        &&& j is Object
        &&& req_record_ok::<LawDetail>(j, "bill"@)
    }

    open spec fn decoded_from(self, j: Json) -> bool {
        &&& req_record_is(self.bill, j, "bill"@)
    }

    fn decode(j: &Json) -> (r: Option<Self>) {
        if !j.is_object() {
            return None;
        }
        let bill = req_record_field(j, "bill")?;
        Some(LawDetailResponse { bill })
    }
}

} // verus!
