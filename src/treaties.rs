//! Treaties.
use vstd::prelude::*;
use crate::decode::{
    Decode, text_ok, text_at, text_view, text_field, i32_ok, i32_at, i32_field, req_list_ok,
    req_list_is, req_list_field, req_record_ok, req_record_is, req_record_field,
};
use crate::json::Json;

verus! {

/// A treaty.
#[derive(Debug, Clone, PartialEq, Eq)]
pub struct Treaty {
    pub congress: Option<i32>,
    pub number: Option<String>,
    pub part_number: Option<String>,
    pub treaty_suffix: Option<String>,
    pub topic: Option<String>,
    pub in_force_date: Option<String>,
    pub transmitted_date: Option<String>,
    pub update_date: Option<String>,
    pub url: Option<String>,
}

impl Decode for Treaty {
    open spec fn accepts(j: Json) -> bool {
        &&& j is Object
        &&& i32_ok(j, "congress"@)
        &&& text_ok(j, "number"@)
        &&& text_ok(j, "partNumber"@)
        &&& text_ok(j, "suffix"@)
        &&& text_ok(j, "topic"@)
        &&& text_ok(j, "inForceDate"@)
        &&& text_ok(j, "transmittedDate"@)
        &&& text_ok(j, "updateDate"@)
        &&& text_ok(j, "url"@)
    }

    open spec fn decoded_from(self, j: Json) -> bool {
        &&& self.congress == i32_at(j, "congress"@)
        &&& text_view(self.number) == text_at(j, "number"@)
        &&& text_view(self.part_number) == text_at(j, "partNumber"@)
        &&& text_view(self.treaty_suffix) == text_at(j, "suffix"@)
        &&& text_view(self.topic) == text_at(j, "topic"@)
        &&& text_view(self.in_force_date) == text_at(j, "inForceDate"@)
        &&& text_view(self.transmitted_date) == text_at(j, "transmittedDate"@)
        &&& text_view(self.update_date) == text_at(j, "updateDate"@)
        &&& text_view(self.url) == text_at(j, "url"@)
    }

    fn decode(j: &Json) -> (r: Option<Self>) {
        if !j.is_object() {
            return None;
        }
        let congress = i32_field(j, "congress")?;
        let number = text_field(j, "number")?;
        let part_number = text_field(j, "partNumber")?;
        let treaty_suffix = text_field(j, "suffix")?;
        let topic = text_field(j, "topic")?;
        let in_force_date = text_field(j, "inForceDate")?;
        let transmitted_date = text_field(j, "transmittedDate")?;
        let update_date = text_field(j, "updateDate")?;
        let url = text_field(j, "url")?;
        Some(Treaty {
            congress,
            number,
            part_number,
            treaty_suffix,
            topic,
            in_force_date,
            transmitted_date,
            update_date,
            url,
        })
    }
}

/// Envelope that holds `treaties`.
#[derive(Debug, Clone, PartialEq, Eq)]
pub struct TreatiesResponse {
    pub treaties: Vec<Treaty>,
}

impl Decode for TreatiesResponse {
    open spec fn accepts(j: Json) -> bool {
        &&& j is Object
        &&& req_list_ok::<Treaty>(j, "treaties"@)
    }

    open spec fn decoded_from(self, j: Json) -> bool {
        &&& req_list_is(self.treaties, j, "treaties"@)
    }

    fn decode(j: &Json) -> (r: Option<Self>) {
        if !j.is_object() {
            return None;
        }
        let treaties = req_list_field(j, "treaties")?;
        Some(TreatiesResponse { treaties })
    }
}

/// Envelope that holds `treaty`.
#[derive(Debug, Clone, PartialEq, Eq)]
pub struct TreatyDetailResponse {
    pub treaty: Treaty,
}

impl Decode for TreatyDetailResponse {
    open spec fn accepts(j: Json) -> bool {
        &&& j is Object
        &&& req_record_ok::<Treaty>(j, "treaty"@)
    }

    open spec fn decoded_from(self, j: Json) -> bool {
        &&& req_record_is(self.treaty, j, "treaty"@)
    }

    fn decode(j: &Json) -> (r: Option<Self>) {
        if !j.is_object() {
            return None;
        }
        let treaty = req_record_field(j, "treaty")?;
        Some(TreatyDetailResponse { treaty })
    }
}

} // verus!
