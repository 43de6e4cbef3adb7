//! Bills and what hangs off a bill: actions, amendments, committees, cosponsors, related bills,
//! subjects, summaries, text versions and titles.
use vstd::prelude::*;
use crate::decode::{
    Decode, text_ok, text_at, text_view, text_field, i32_ok, i32_at, i32_field, bool_ok,
    bool_at, bool_field, record_ok, record_is, record_field, opt_list_ok, opt_list_is,
    list_field, req_list_ok, req_list_is, req_list_field, req_record_ok, req_record_is,
    req_record_field,
};
use crate::json::{Json, member};
use crate::members::Sponsor;

verus! {

/// The latest action taken on a bill or amendment.
#[derive(Debug, Clone, PartialEq, Eq)]
pub struct LatestAction {
    pub action_date: Option<String>,
    pub text: Option<String>,
}

impl Decode for LatestAction {
    open spec fn accepts(j: Json) -> bool {
        &&& j is Object
        &&& text_ok(j, "actionDate"@)
        &&& text_ok(j, "text"@)
    }

    open spec fn decoded_from(self, j: Json) -> bool {
        &&& text_view(self.action_date) == text_at(j, "actionDate"@)
        &&& text_view(self.text) == text_at(j, "text"@)
    }

    fn decode(j: &Json) -> (r: Option<Self>) {
        if !j.is_object() {
            return None;
        }
        let action_date = text_field(j, "actionDate")?;
        let text = text_field(j, "text")?;
        Some(LatestAction { action_date, text })
    }
}

/// A bill as it appears in list responses.
#[derive(Debug, Clone, PartialEq, Eq)]
pub struct Bill {
    pub congress: Option<i32>,
    pub latest_action: Option<LatestAction>,
    pub number: Option<String>,
    pub origin_chamber: Option<String>,
    pub origin_chamber_code: Option<String>,
    pub title: Option<String>,
    pub bill_type: Option<String>,
    pub update_date: Option<String>,
    pub update_date_including_text: Option<String>,
    pub url: Option<String>,
}

impl Decode for Bill {
    open spec fn accepts(j: Json) -> bool {
        &&& j is Object
        &&& i32_ok(j, "congress"@)
        &&& record_ok::<LatestAction>(j, "latestAction"@)
        &&& text_ok(j, "number"@)
        &&& text_ok(j, "originChamber"@)
        &&& text_ok(j, "originChamberCode"@)
        &&& text_ok(j, "title"@)
        &&& text_ok(j, "type"@)
        &&& text_ok(j, "updateDate"@)
        &&& text_ok(j, "updateDateIncludingText"@)
        &&& text_ok(j, "url"@)
    }

    open spec fn decoded_from(self, j: Json) -> bool {
        &&& self.congress == i32_at(j, "congress"@)
        &&& record_is(self.latest_action, j, "latestAction"@)
        &&& text_view(self.number) == text_at(j, "number"@)
        &&& text_view(self.origin_chamber) == text_at(j, "originChamber"@)
        &&& text_view(self.origin_chamber_code) == text_at(j, "originChamberCode"@)
        &&& text_view(self.title) == text_at(j, "title"@)
        &&& text_view(self.bill_type) == text_at(j, "type"@)
        &&& text_view(self.update_date) == text_at(j, "updateDate"@)
        &&& text_view(self.update_date_including_text) == text_at(j, "updateDateIncludingText"@)
        &&& text_view(self.url) == text_at(j, "url"@)
    }

    fn decode(j: &Json) -> (r: Option<Self>) {
        if !j.is_object() {
            return None;
        }
        let congress = i32_field(j, "congress")?;
        let latest_action = record_field(j, "latestAction")?;
        let number = text_field(j, "number")?;
        let origin_chamber = text_field(j, "originChamber")?;
        let origin_chamber_code = text_field(j, "originChamberCode")?;
        let title = text_field(j, "title")?;
        let bill_type = text_field(j, "type")?;
        let update_date = text_field(j, "updateDate")?;
        let update_date_including_text = text_field(j, "updateDateIncludingText")?;
        let url = text_field(j, "url")?;
        Some(Bill {
            congress,
            latest_action,
            number,
            origin_chamber,
            origin_chamber_code,
            title,
            bill_type,
            update_date,
            update_date_including_text,
            url,
        })
    }
}

/// Envelope of `/bill` lists.
#[derive(Debug, Clone, PartialEq, Eq)]
pub struct BillsResponse {
    pub bills: Vec<Bill>,
}

impl Decode for BillsResponse {
    open spec fn accepts(j: Json) -> bool {
        &&& j is Object
        &&& req_list_ok::<Bill>(j, "bills"@)
    }

    open spec fn decoded_from(self, j: Json) -> bool {
        &&& req_list_is(self.bills, j, "bills"@)
    }

    fn decode(j: &Json) -> (r: Option<Self>) {
        if !j.is_object() {
            return None;
        }
        let bills = req_list_field(j, "bills")?;
        Some(BillsResponse { bills })
    }
}

/// A law that a bill became.
#[derive(Debug, Clone, PartialEq, Eq)]
pub struct Law {
    pub number: Option<String>,
    pub law_type: Option<String>,
}

impl Decode for Law {
    open spec fn accepts(j: Json) -> bool {
        &&& j is Object
        &&& text_ok(j, "number"@)
        &&& text_ok(j, "type"@)
    }

    open spec fn decoded_from(self, j: Json) -> bool {
        &&& text_view(self.number) == text_at(j, "number"@)
        &&& text_view(self.law_type) == text_at(j, "type"@)
    }

    fn decode(j: &Json) -> (r: Option<Self>) {
        if !j.is_object() {
            return None;
        }
        let number = text_field(j, "number")?;
        let law_type = text_field(j, "type")?;
        Some(Law { number, law_type })
    }
}

/// The policy area of a bill.
#[derive(Debug, Clone, PartialEq, Eq)]
pub struct PolicyArea {
    pub name: Option<String>,
}

impl Decode for PolicyArea {
    open spec fn accepts(j: Json) -> bool {
        &&& j is Object
        &&& text_ok(j, "name"@)
    }

    open spec fn decoded_from(self, j: Json) -> bool {
        &&& text_view(self.name) == text_at(j, "name"@)
    }

    fn decode(j: &Json) -> (r: Option<Self>) {
        if !j.is_object() {
            return None;
        }
        let name = text_field(j, "name")?;
        Some(PolicyArea { name })
    }
}

/// A count of related items with the URL that lists them.
#[derive(Debug, Clone, PartialEq, Eq)]
pub struct RelatedCount {
    pub count: Option<i32>,
    pub url: Option<String>,
}

impl Decode for RelatedCount {
    open spec fn accepts(j: Json) -> bool {
        &&& j is Object
        &&& i32_ok(j, "count"@)
        &&& text_ok(j, "url"@)
    }

    open spec fn decoded_from(self, j: Json) -> bool {
        &&& self.count == i32_at(j, "count"@)
        &&& text_view(self.url) == text_at(j, "url"@)
    }

    fn decode(j: &Json) -> (r: Option<Self>) {
        if !j.is_object() {
            return None;
        }
        let count = i32_field(j, "count")?;
        let url = text_field(j, "url")?;
        Some(RelatedCount { count, url })
    }
}

/// Full details of one bill.
#[derive(Debug, Clone, PartialEq, Eq)]
pub struct BillDetail {
    pub congress: Option<i32>,
    pub latest_action: Option<LatestAction>,
    pub number: Option<String>,
    pub origin_chamber: Option<String>,
    pub origin_chamber_code: Option<String>,
    pub title: Option<String>,
    pub bill_type: Option<String>,
    pub update_date: Option<String>,
    pub update_date_including_text: Option<String>,
    pub url: Option<String>,
    pub introduced_date: Option<String>,
    pub sponsors: Option<Vec<Sponsor>>,
    pub policy_area: Option<PolicyArea>,
    pub laws: Option<Vec<Law>>,
}

impl Decode for BillDetail {
    open spec fn accepts(j: Json) -> bool {
        &&& j is Object
        &&& i32_ok(j, "congress"@)
        &&& record_ok::<LatestAction>(j, "latestAction"@)
        &&& text_ok(j, "number"@)
        &&& text_ok(j, "originChamber"@)
        &&& text_ok(j, "originChamberCode"@)
        &&& text_ok(j, "title"@)
        &&& text_ok(j, "type"@)
        &&& text_ok(j, "updateDate"@)
        &&& text_ok(j, "updateDateIncludingText"@)
        &&& text_ok(j, "url"@)
        &&& text_ok(j, "introducedDate"@)
        &&& opt_list_ok::<Sponsor>(j, "sponsors"@)
        &&& record_ok::<PolicyArea>(j, "policyArea"@)
        &&& opt_list_ok::<Law>(j, "laws"@)
    }

    open spec fn decoded_from(self, j: Json) -> bool {
        &&& self.congress == i32_at(j, "congress"@)
        &&& record_is(self.latest_action, j, "latestAction"@)
        &&& text_view(self.number) == text_at(j, "number"@)
        &&& text_view(self.origin_chamber) == text_at(j, "originChamber"@)
        &&& text_view(self.origin_chamber_code) == text_at(j, "originChamberCode"@)
        &&& text_view(self.title) == text_at(j, "title"@)
        &&& text_view(self.bill_type) == text_at(j, "type"@)
        &&& text_view(self.update_date) == text_at(j, "updateDate"@)
        &&& text_view(self.update_date_including_text) == text_at(j, "updateDateIncludingText"@)
        &&& text_view(self.url) == text_at(j, "url"@)
        &&& text_view(self.introduced_date) == text_at(j, "introducedDate"@)
        &&& opt_list_is(self.sponsors, j, "sponsors"@)
        &&& record_is(self.policy_area, j, "policyArea"@)
        &&& opt_list_is(self.laws, j, "laws"@)
    }

    fn decode(j: &Json) -> (r: Option<Self>) {
        if !j.is_object() {
            return None;
        }
        let congress = i32_field(j, "congress")?;
        let latest_action = record_field(j, "latestAction")?;
        let number = text_field(j, "number")?;
        let origin_chamber = text_field(j, "originChamber")?;
        let origin_chamber_code = text_field(j, "originChamberCode")?;
        let title = text_field(j, "title")?;
        let bill_type = text_field(j, "type")?;
        let update_date = text_field(j, "updateDate")?;
        let update_date_including_text = text_field(j, "updateDateIncludingText")?;
        let url = text_field(j, "url")?;
        let introduced_date = text_field(j, "introducedDate")?;
        let sponsors = list_field(j, "sponsors")?;
        let policy_area = record_field(j, "policyArea")?;
        let laws = list_field(j, "laws")?;
        Some(BillDetail {
            congress,
            latest_action,
            number,
            origin_chamber,
            origin_chamber_code,
            title,
            bill_type,
            update_date,
            update_date_including_text,
            url,
            introduced_date,
            sponsors,
            policy_area,
            laws,
        })
    }
}

/// Envelope of `/bill/{congress}/{type}/{number}`.
#[derive(Debug, Clone, PartialEq, Eq)]
pub struct BillDetailResponse {
    pub bill: BillDetail,
}

impl Decode for BillDetailResponse {
    open spec fn accepts(j: Json) -> bool {
        &&& j is Object
        &&& req_record_ok::<BillDetail>(j, "bill"@)
    }

    open spec fn decoded_from(self, j: Json) -> bool {
        &&& req_record_is(self.bill, j, "bill"@)
    }

    fn decode(j: &Json) -> (r: Option<Self>) {
        if !j.is_object() {
            return None;
        }
        let bill = req_record_field(j, "bill")?;
        Some(BillDetailResponse { bill })
    }
}

/// An action taken on a bill.
#[derive(Debug, Clone, PartialEq, Eq)]
pub struct Action {
    pub action_code: Option<String>,
    pub action_date: Option<String>,
    pub text: Option<String>,
    pub action_type: Option<String>,
}

impl Decode for Action {
    open spec fn accepts(j: Json) -> bool {
        &&& j is Object
        &&& text_ok(j, "actionCode"@)
        &&& text_ok(j, "actionDate"@)
        &&& text_ok(j, "text"@)
        &&& text_ok(j, "type"@)
    }

    open spec fn decoded_from(self, j: Json) -> bool {
        &&& text_view(self.action_code) == text_at(j, "actionCode"@)
        &&& text_view(self.action_date) == text_at(j, "actionDate"@)
        &&& text_view(self.text) == text_at(j, "text"@)
        &&& text_view(self.action_type) == text_at(j, "type"@)
    }

    fn decode(j: &Json) -> (r: Option<Self>) {
        if !j.is_object() {
            return None;
        }
        let action_code = text_field(j, "actionCode")?;
        let action_date = text_field(j, "actionDate")?;
        let text = text_field(j, "text")?;
        let action_type = text_field(j, "type")?;
        Some(Action { action_code, action_date, text, action_type })
    }
}

/// Envelope of a bill's actions.
#[derive(Debug, Clone, PartialEq, Eq)]
pub struct ActionsResponse {
    pub actions: Vec<Action>,
}

impl Decode for ActionsResponse {
    open spec fn accepts(j: Json) -> bool {
        &&& j is Object
        &&& req_list_ok::<Action>(j, "actions"@)
    }

    open spec fn decoded_from(self, j: Json) -> bool {
        &&& req_list_is(self.actions, j, "actions"@)
    }

    fn decode(j: &Json) -> (r: Option<Self>) {
        if !j.is_object() {
            return None;
        }
        let actions = req_list_field(j, "actions")?;
        Some(ActionsResponse { actions })
    }
}

/// An amendment.
#[derive(Debug, Clone, PartialEq, Eq)]
pub struct Amendment {
    pub congress: Option<i32>,
    pub latest_action: Option<LatestAction>,
    pub number: Option<String>,
    pub amendment_type: Option<String>,
    pub url: Option<String>,
}

impl Decode for Amendment {
    open spec fn accepts(j: Json) -> bool {
        &&& j is Object
        &&& i32_ok(j, "congress"@)
        &&& record_ok::<LatestAction>(j, "latestAction"@)
        &&& text_ok(j, "number"@)
        &&& text_ok(j, "type"@)
        &&& text_ok(j, "url"@)
    }

    open spec fn decoded_from(self, j: Json) -> bool {
        &&& self.congress == i32_at(j, "congress"@)
        &&& record_is(self.latest_action, j, "latestAction"@)
        &&& text_view(self.number) == text_at(j, "number"@)
        &&& text_view(self.amendment_type) == text_at(j, "type"@)
        &&& text_view(self.url) == text_at(j, "url"@)
    }

    fn decode(j: &Json) -> (r: Option<Self>) {
        if !j.is_object() {
            return None;
        }
        let congress = i32_field(j, "congress")?;
        let latest_action = record_field(j, "latestAction")?;
        let number = text_field(j, "number")?;
        let amendment_type = text_field(j, "type")?;
        let url = text_field(j, "url")?;
        Some(Amendment { congress, latest_action, number, amendment_type, url })
    }
}

/// Envelope of amendment lists.
#[derive(Debug, Clone, PartialEq, Eq)]
pub struct AmendmentsResponse {
    pub amendments: Vec<Amendment>,
}

impl Decode for AmendmentsResponse {
    open spec fn accepts(j: Json) -> bool {
        &&& j is Object
        &&& req_list_ok::<Amendment>(j, "amendments"@)
    }

    open spec fn decoded_from(self, j: Json) -> bool {
        &&& req_list_is(self.amendments, j, "amendments"@)
    }

    fn decode(j: &Json) -> (r: Option<Self>) {
        if !j.is_object() {
            return None;
        }
        let amendments = req_list_field(j, "amendments")?;
        Some(AmendmentsResponse { amendments })
    }
}

/// A committee that a bill was referred to.
#[derive(Debug, Clone, PartialEq, Eq)]
pub struct Committee {
    pub name: Option<String>,
    pub system_code: Option<String>,
    pub url: Option<String>,
}

impl Decode for Committee {
    open spec fn accepts(j: Json) -> bool {
        &&& j is Object
        &&& text_ok(j, "name"@)
        &&& text_ok(j, "systemCode"@)
        &&& text_ok(j, "url"@)
    }

    open spec fn decoded_from(self, j: Json) -> bool {
        &&& text_view(self.name) == text_at(j, "name"@)
        &&& text_view(self.system_code) == text_at(j, "systemCode"@)
        &&& text_view(self.url) == text_at(j, "url"@)
    }

    fn decode(j: &Json) -> (r: Option<Self>) {
        if !j.is_object() {
            return None;
        }
        let name = text_field(j, "name")?;
        let system_code = text_field(j, "systemCode")?;
        let url = text_field(j, "url")?;
        Some(Committee { name, system_code, url })
    }
}

/// Envelope of the committees of a bill.
#[derive(Debug, Clone, PartialEq, Eq)]
pub struct CommitteesResponse {
    pub committees: Vec<Committee>,
}

impl Decode for CommitteesResponse {
    open spec fn accepts(j: Json) -> bool {
        &&& j is Object
        &&& req_list_ok::<Committee>(j, "committees"@)
    }

    open spec fn decoded_from(self, j: Json) -> bool {
        &&& req_list_is(self.committees, j, "committees"@)
    }

    fn decode(j: &Json) -> (r: Option<Self>) {
        if !j.is_object() {
            return None;
        }
        let committees = req_list_field(j, "committees")?;
        Some(CommitteesResponse { committees })
    }
}

/// A member who cosponsored a bill, with the terms of the cosponsorship.
#[derive(Debug, Clone, PartialEq, Eq)]
pub struct Cosponsor {
    pub bioguide_id: Option<String>,
    pub first_name: Option<String>,
    pub last_name: Option<String>,
    pub full_name: Option<String>,
    pub state: Option<String>,
    pub party: Option<String>,
    pub sponsorship_date: Option<String>,
    pub is_original_cosponsor: Option<bool>,
}

impl Decode for Cosponsor {
    open spec fn accepts(j: Json) -> bool {
        &&& j is Object
        &&& text_ok(j, "bioguideId"@)
        &&& text_ok(j, "firstName"@)
        &&& text_ok(j, "lastName"@)
        &&& text_ok(j, "fullName"@)
        &&& text_ok(j, "state"@)
        &&& text_ok(j, "party"@)
        &&& text_ok(j, "sponsorshipDate"@)
        &&& bool_ok(j, "isOriginalCosponsor"@)
    }

    open spec fn decoded_from(self, j: Json) -> bool {
        &&& text_view(self.bioguide_id) == text_at(j, "bioguideId"@)
        &&& text_view(self.first_name) == text_at(j, "firstName"@)
        &&& text_view(self.last_name) == text_at(j, "lastName"@)
        &&& text_view(self.full_name) == text_at(j, "fullName"@)
        &&& text_view(self.state) == text_at(j, "state"@)
        &&& text_view(self.party) == text_at(j, "party"@)
        &&& text_view(self.sponsorship_date) == text_at(j, "sponsorshipDate"@)
        &&& self.is_original_cosponsor == bool_at(j, "isOriginalCosponsor"@)
    }

    fn decode(j: &Json) -> (r: Option<Self>) {
        if !j.is_object() {
            return None;
        }
        let bioguide_id = text_field(j, "bioguideId")?;
        let first_name = text_field(j, "firstName")?;
        let last_name = text_field(j, "lastName")?;
        let full_name = text_field(j, "fullName")?;
        let state = text_field(j, "state")?;
        let party = text_field(j, "party")?;
        let sponsorship_date = text_field(j, "sponsorshipDate")?;
        let is_original_cosponsor = bool_field(j, "isOriginalCosponsor")?;
        Some(Cosponsor {
            bioguide_id,
            first_name,
            last_name,
            full_name,
            state,
            party,
            sponsorship_date,
            is_original_cosponsor,
        })
    }
}

/// Envelope of a bill's cosponsors.
#[derive(Debug, Clone, PartialEq, Eq)]
pub struct CosponsorsResponse {
    pub cosponsors: Vec<Cosponsor>,
}

impl Decode for CosponsorsResponse {
    open spec fn accepts(j: Json) -> bool {
        &&& j is Object
        &&& req_list_ok::<Cosponsor>(j, "cosponsors"@)
    }

    open spec fn decoded_from(self, j: Json) -> bool {
        &&& req_list_is(self.cosponsors, j, "cosponsors"@)
    }

    fn decode(j: &Json) -> (r: Option<Self>) {
        if !j.is_object() {
            return None;
        }
        let cosponsors = req_list_field(j, "cosponsors")?;
        Some(CosponsorsResponse { cosponsors })
    }
}

/// A bill related to another bill.
#[derive(Debug, Clone, PartialEq, Eq)]
pub struct RelatedBill {
    pub congress: Option<i32>,
    pub number: Option<i32>,
    pub bill_type: Option<String>,
    pub title: Option<String>,
    pub url: Option<String>,
    pub latest_action: Option<LatestAction>,
    pub relationship_details: Option<Vec<RelationshipDetail>>,
}

impl Decode for RelatedBill {
    open spec fn accepts(j: Json) -> bool {
        &&& j is Object
        &&& i32_ok(j, "congress"@)
        &&& i32_ok(j, "number"@)
        &&& text_ok(j, "type"@)
        &&& text_ok(j, "title"@)
        &&& text_ok(j, "url"@)
        &&& record_ok::<LatestAction>(j, "latestAction"@)
        &&& opt_list_ok::<RelationshipDetail>(j, "relationshipDetails"@)
    }

    open spec fn decoded_from(self, j: Json) -> bool {
        &&& self.congress == i32_at(j, "congress"@)
        &&& self.number == i32_at(j, "number"@)
        &&& text_view(self.bill_type) == text_at(j, "type"@)
        &&& text_view(self.title) == text_at(j, "title"@)
        &&& text_view(self.url) == text_at(j, "url"@)
        &&& record_is(self.latest_action, j, "latestAction"@)
        &&& opt_list_is(self.relationship_details, j, "relationshipDetails"@)
    }

    fn decode(j: &Json) -> (r: Option<Self>) {
        if !j.is_object() {
            return None;
        }
        let congress = i32_field(j, "congress")?;
        let number = i32_field(j, "number")?;
        let bill_type = text_field(j, "type")?;
        let title = text_field(j, "title")?;
        let url = text_field(j, "url")?;
        let latest_action = record_field(j, "latestAction")?;
        let relationship_details = list_field(j, "relationshipDetails")?;
        Some(RelatedBill {
            congress,
            number,
            bill_type,
            title,
            url,
            latest_action,
            relationship_details,
        })
    }
}

/// How a related bill relates to the bill, and who said so.
#[derive(Debug, Clone, PartialEq, Eq)]
pub struct RelationshipDetail {
    pub identified_by: Option<String>,
    pub relationship_type: Option<String>,
}

impl Decode for RelationshipDetail {
    open spec fn accepts(j: Json) -> bool {
        &&& j is Object
        &&& text_ok(j, "identifiedBy"@)
        &&& text_ok(j, "type"@)
    }

    open spec fn decoded_from(self, j: Json) -> bool {
        &&& text_view(self.identified_by) == text_at(j, "identifiedBy"@)
        &&& text_view(self.relationship_type) == text_at(j, "type"@)
    }

    fn decode(j: &Json) -> (r: Option<Self>) {
        if !j.is_object() {
            return None;
        }
        let identified_by = text_field(j, "identifiedBy")?;
        let relationship_type = text_field(j, "type")?;
        Some(RelationshipDetail { identified_by, relationship_type })
    }
}

/// Envelope of a bill's related bills; the list may be missing.
#[derive(Debug, Clone, PartialEq, Eq)]
pub struct RelatedBillsResponse {
    pub related_bills: Option<Vec<RelatedBill>>,
}

impl Decode for RelatedBillsResponse {
    open spec fn accepts(j: Json) -> bool {
        &&& j is Object
        &&& opt_list_ok::<RelatedBill>(j, "relatedBills"@)
    }

    open spec fn decoded_from(self, j: Json) -> bool {
        &&& opt_list_is(self.related_bills, j, "relatedBills"@)
    }

    fn decode(j: &Json) -> (r: Option<Self>) {
        if !j.is_object() {
            return None;
        }
        let related_bills = list_field(j, "relatedBills")?;
        Some(RelatedBillsResponse { related_bills })
    }
}

/// A legislative subject of a bill.
#[derive(Debug, Clone, PartialEq, Eq)]
pub struct Subject {
    pub name: Option<String>,
    pub update_date: Option<String>,
}

impl Decode for Subject {
    open spec fn accepts(j: Json) -> bool {
        &&& j is Object
        &&& text_ok(j, "name"@)
        &&& text_ok(j, "updateDate"@)
    }

    open spec fn decoded_from(self, j: Json) -> bool {
        &&& text_view(self.name) == text_at(j, "name"@)
        &&& text_view(self.update_date) == text_at(j, "updateDate"@)
    }

    fn decode(j: &Json) -> (r: Option<Self>) {
        if !j.is_object() {
            return None;
        }
        let name = text_field(j, "name")?;
        let update_date = text_field(j, "updateDate")?;
        Some(Subject { name, update_date })
    }
}

/// Envelope of a bill's subjects; the list may be missing.
#[derive(Debug, Clone, PartialEq, Eq)]
pub struct SubjectsResponse {
    pub legislative_subjects: Option<Vec<Subject>>,
    pub policy_area: Option<PolicyArea>,
}

impl Decode for SubjectsResponse {
    open spec fn accepts(j: Json) -> bool {
        &&& j is Object
        &&& opt_list_ok::<Subject>(j, "legislativeSubjects"@)
        &&& record_ok::<PolicyArea>(j, "policyArea"@)
    }

    open spec fn decoded_from(self, j: Json) -> bool {
        &&& opt_list_is(self.legislative_subjects, j, "legislativeSubjects"@)
        &&& record_is(self.policy_area, j, "policyArea"@)
    }

    fn decode(j: &Json) -> (r: Option<Self>) {
        if !j.is_object() {
            return None;
        }
        let legislative_subjects = list_field(j, "legislativeSubjects")?;
        let policy_area = record_field(j, "policyArea")?;
        Some(SubjectsResponse { legislative_subjects, policy_area })
    }
}

/// A summary of a bill.
#[derive(Debug, Clone, PartialEq, Eq)]
pub struct Summary {
    pub action_date: Option<String>,
    pub action_desc: Option<String>,
    pub text: Option<String>,
    pub update_date: Option<String>,
    pub version_code: Option<String>,
}

impl Decode for Summary {
    open spec fn accepts(j: Json) -> bool {
        &&& j is Object
        &&& text_ok(j, "actionDate"@)
        &&& text_ok(j, "actionDesc"@)
        &&& text_ok(j, "text"@)
        &&& text_ok(j, "updateDate"@)
        &&& text_ok(j, "versionCode"@)
    }

    open spec fn decoded_from(self, j: Json) -> bool {
        &&& text_view(self.action_date) == text_at(j, "actionDate"@)
        &&& text_view(self.action_desc) == text_at(j, "actionDesc"@)
        &&& text_view(self.text) == text_at(j, "text"@)
        &&& text_view(self.update_date) == text_at(j, "updateDate"@)
        &&& text_view(self.version_code) == text_at(j, "versionCode"@)
    }

    fn decode(j: &Json) -> (r: Option<Self>) {
        if !j.is_object() {
            return None;
        }
        let action_date = text_field(j, "actionDate")?;
        let action_desc = text_field(j, "actionDesc")?;
        let text = text_field(j, "text")?;
        let update_date = text_field(j, "updateDate")?;
        let version_code = text_field(j, "versionCode")?;
        Some(Summary { action_date, action_desc, text, update_date, version_code })
    }
}

/// Envelope of a bill's summaries.
#[derive(Debug, Clone, PartialEq, Eq)]
pub struct SummariesResponse {
    pub summaries: Vec<Summary>,
}

impl Decode for SummariesResponse {
    open spec fn accepts(j: Json) -> bool {
        &&& j is Object
        &&& req_list_ok::<Summary>(j, "summaries"@)
    }

    open spec fn decoded_from(self, j: Json) -> bool {
        &&& req_list_is(self.summaries, j, "summaries"@)
    }

    fn decode(j: &Json) -> (r: Option<Self>) {
        if !j.is_object() {
            return None;
        }
        let summaries = req_list_field(j, "summaries")?;
        Some(SummariesResponse { summaries })
    }
}

/// A published text version of a bill.
#[derive(Debug, Clone, PartialEq, Eq)]
pub struct TextVersion {
    pub date: Option<String>,
    pub text_type: Option<String>,
    pub formats: Option<Vec<TextFormat>>,
}

impl Decode for TextVersion {
    open spec fn accepts(j: Json) -> bool {
        &&& j is Object
        &&& text_ok(j, "date"@)
        &&& text_ok(j, "type"@)
        &&& opt_list_ok::<TextFormat>(j, "formats"@)
    }

    open spec fn decoded_from(self, j: Json) -> bool {
        &&& text_view(self.date) == text_at(j, "date"@)
        &&& text_view(self.text_type) == text_at(j, "type"@)
        &&& opt_list_is(self.formats, j, "formats"@)
    }

    fn decode(j: &Json) -> (r: Option<Self>) {
        if !j.is_object() {
            return None;
        }
        let date = text_field(j, "date")?;
        let text_type = text_field(j, "type")?;
        let formats = list_field(j, "formats")?;
        Some(TextVersion { date, text_type, formats })
    }
}

/// One format in which a text version is available.
#[derive(Debug, Clone, PartialEq, Eq)]
pub struct TextFormat {
    pub format_type: Option<String>,
    pub url: Option<String>,
}

impl Decode for TextFormat {
    open spec fn accepts(j: Json) -> bool {
        &&& j is Object
        &&& text_ok(j, "type"@)
        &&& text_ok(j, "url"@)
    }

    open spec fn decoded_from(self, j: Json) -> bool {
        &&& text_view(self.format_type) == text_at(j, "type"@)
        &&& text_view(self.url) == text_at(j, "url"@)
    }

    fn decode(j: &Json) -> (r: Option<Self>) {
        if !j.is_object() {
            return None;
        }
        let format_type = text_field(j, "type")?;
        let url = text_field(j, "url")?;
        Some(TextFormat { format_type, url })
    }
}

/// Envelope of a bill's text versions.
#[derive(Debug, Clone, PartialEq, Eq)]
pub struct TextVersionsResponse {
    pub text_versions: Vec<TextVersion>,
}

impl Decode for TextVersionsResponse {
    open spec fn accepts(j: Json) -> bool {
        &&& j is Object
        &&& req_list_ok::<TextVersion>(j, "textVersions"@)
    }

    open spec fn decoded_from(self, j: Json) -> bool {
        &&& req_list_is(self.text_versions, j, "textVersions"@)
    }

    fn decode(j: &Json) -> (r: Option<Self>) {
        if !j.is_object() {
            return None;
        }
        let text_versions = req_list_field(j, "textVersions")?;
        Some(TextVersionsResponse { text_versions })
    }
}

/// A title of a bill.
#[derive(Debug, Clone, PartialEq, Eq)]
pub struct Title {
    pub title: Option<String>,
    pub title_type: Option<String>,
    pub title_type_code: Option<i32>,
}

impl Decode for Title {
    open spec fn accepts(j: Json) -> bool {
        &&& j is Object
        &&& text_ok(j, "title"@)
        &&& text_ok(j, "titleType"@)
        &&& i32_ok(j, "titleTypeCode"@)
    }

    open spec fn decoded_from(self, j: Json) -> bool {
        &&& text_view(self.title) == text_at(j, "title"@)
        &&& text_view(self.title_type) == text_at(j, "titleType"@)
        &&& self.title_type_code == i32_at(j, "titleTypeCode"@)
    }

    fn decode(j: &Json) -> (r: Option<Self>) {
        if !j.is_object() {
            return None;
        }
        let title = text_field(j, "title")?;
        let title_type = text_field(j, "titleType")?;
        let title_type_code = i32_field(j, "titleTypeCode")?;
        Some(Title { title, title_type, title_type_code })
    }
}

/// Envelope of a bill's titles.
#[derive(Debug, Clone, PartialEq, Eq)]
pub struct TitlesResponse {
    pub titles: Vec<Title>,
}

impl Decode for TitlesResponse {
    open spec fn accepts(j: Json) -> bool {
        &&& j is Object
        &&& req_list_ok::<Title>(j, "titles"@)
    }

    open spec fn decoded_from(self, j: Json) -> bool {
        &&& req_list_is(self.titles, j, "titles"@)
    }

    fn decode(j: &Json) -> (r: Option<Self>) {
        if !j.is_object() {
            return None;
        }
        let titles = req_list_field(j, "titles")?;
        Some(TitlesResponse { titles })
    }
}

impl RelatedBillsResponse {
    /// The related bills; an answer that leaves the list out gives an empty list.
    pub fn into_related_bills(self) -> (r: Vec<RelatedBill>)
        ensures
            r@ == match self.related_bills {
                Some(v) => v@,
                None => Seq::<RelatedBill>::empty(),
            },
    {
        match self.related_bills {
            Some(v) => v,
            None => Vec::new(),
        }
    }
}

impl SubjectsResponse {
    /// The legislative subjects; an answer that leaves the list out gives an empty list.
    pub fn into_subjects(self) -> (r: Vec<Subject>)
        ensures
            r@ == match self.legislative_subjects {
                Some(v) => v@,
                None => Seq::<Subject>::empty(),
            },
    {
        match self.legislative_subjects {
            Some(v) => v,
            None => Vec::new(),
        }
    }
}

/// A body that leaves out `relatedBills` still decodes, with no list, so the related bills
/// are empty.
pub proof fn lemma_missing_related_bills_is_empty(j: Json, env: RelatedBillsResponse)
    requires
        j is Object,
        member(j, "relatedBills"@).is_none(),
    ensures
        RelatedBillsResponse::accepts(j),
        env.decoded_from(j) ==> env.related_bills.is_none(),
{
}

/// A body that leaves out `legislativeSubjects` still decodes, with no list, so the subjects are
/// empty.
pub proof fn lemma_missing_subjects_is_empty(j: Json, env: SubjectsResponse)
    requires
        j is Object,
        member(j, "legislativeSubjects"@).is_none(),
        record_ok::<PolicyArea>(j, "policyArea"@),
    ensures
        SubjectsResponse::accepts(j),
        env.decoded_from(j) ==> env.legislative_subjects.is_none(),
{
}

} // verus!
