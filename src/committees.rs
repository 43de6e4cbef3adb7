//! Committees, committee reports and committee prints.
use vstd::prelude::*;
use crate::decode::{
    Decode, text_ok, text_at, text_view, text_field, i32_ok, i32_at, i32_field, bool_ok,
    bool_at, bool_field, record_ok, record_is, record_field, opt_list_ok, opt_list_is,
    list_field, req_list_ok, req_list_is, req_list_field, req_record_ok, req_record_is,
    req_record_field,
};
use crate::json::Json;
use crate::bills::Committee;

verus! {

/// A subcommittee.
#[derive(Debug, Clone, PartialEq, Eq)]
pub struct Subcommittee {
    pub name: Option<String>,
    pub system_code: Option<String>,
    pub url: Option<String>,
}

impl Decode for Subcommittee {
    open spec fn accepts(j: Json) -> bool {
        &&& j is Object
        &&& text_ok(j, "name"@)
        &&& text_ok(j, "systemCode"@)
        &&& text_ok(j, "url"@)
    }

    open spec fn decoded_from(self, j: Json) -> bool {
        &&& text_view(self.name) == text_at(j, "name"@)
        &&& text_view(self.system_code) == text_at(j, "systemCode"@)
        &&& text_view(self.url) == text_at(j, "url"@)
    }

    fn decode(j: &Json) -> (r: Option<Self>) {
        if !j.is_object() {
            return None;
        }
        let name = text_field(j, "name")?;
        let system_code = text_field(j, "systemCode")?;
        let url = text_field(j, "url")?;
        Some(Subcommittee { name, system_code, url })
    }
}

/// A parent committee.
#[derive(Debug, Clone, PartialEq, Eq)]
pub struct ParentCommittee {
    pub name: Option<String>,
    pub system_code: Option<String>,
    pub url: Option<String>,
}

impl Decode for ParentCommittee {
    open spec fn accepts(j: Json) -> bool {
        &&& j is Object
        &&& text_ok(j, "name"@)
        &&& text_ok(j, "systemCode"@)
        &&& text_ok(j, "url"@)
    }

    open spec fn decoded_from(self, j: Json) -> bool {
        &&& text_view(self.name) == text_at(j, "name"@)
        &&& text_view(self.system_code) == text_at(j, "systemCode"@)
        &&& text_view(self.url) == text_at(j, "url"@)
    }

    fn decode(j: &Json) -> (r: Option<Self>) {
        if !j.is_object() {
            return None;
        }
        let name = text_field(j, "name")?;
        let system_code = text_field(j, "systemCode")?;
        let url = text_field(j, "url")?;
        Some(ParentCommittee { name, system_code, url })
    }
}

/// A committee in list responses.
#[derive(Debug, Clone, PartialEq, Eq)]
pub struct CommitteeItem {
    pub chamber: Option<String>,
    pub committee_type_code: Option<String>,
    pub update_date: Option<String>,
    pub name: Option<String>,
    pub parent: Option<ParentCommittee>,
    pub subcommittees: Option<Vec<Subcommittee>>,
    pub system_code: Option<String>,
    pub url: Option<String>,
}

impl Decode for CommitteeItem {
    open spec fn accepts(j: Json) -> bool {
        &&& j is Object
        &&& text_ok(j, "chamber"@)
        &&& text_ok(j, "committeeTypeCode"@)
        &&& text_ok(j, "updateDate"@)
        &&& text_ok(j, "name"@)
        &&& record_ok::<ParentCommittee>(j, "parent"@)
        &&& opt_list_ok::<Subcommittee>(j, "subcommittees"@)
        &&& text_ok(j, "systemCode"@)
        &&& text_ok(j, "url"@)
    }

    open spec fn decoded_from(self, j: Json) -> bool {
        &&& text_view(self.chamber) == text_at(j, "chamber"@)
        &&& text_view(self.committee_type_code) == text_at(j, "committeeTypeCode"@)
        &&& text_view(self.update_date) == text_at(j, "updateDate"@)
        &&& text_view(self.name) == text_at(j, "name"@)
        &&& record_is(self.parent, j, "parent"@)
        &&& opt_list_is(self.subcommittees, j, "subcommittees"@)
        &&& text_view(self.system_code) == text_at(j, "systemCode"@)
        &&& text_view(self.url) == text_at(j, "url"@)
    }

    fn decode(j: &Json) -> (r: Option<Self>) {
        if !j.is_object() {
            return None;
        }
        let chamber = text_field(j, "chamber")?;
        let committee_type_code = text_field(j, "committeeTypeCode")?;
        let update_date = text_field(j, "updateDate")?;
        let name = text_field(j, "name")?;
        let parent = record_field(j, "parent")?;
        let subcommittees = list_field(j, "subcommittees")?;
        let system_code = text_field(j, "systemCode")?;
        let url = text_field(j, "url")?;
        Some(CommitteeItem {
            chamber,
            committee_type_code,
            update_date,
            name,
            parent,
            subcommittees,
            system_code,
            url,
        })
    }
}

/// Committee history entry.
#[derive(Debug, Clone, PartialEq, Eq)]
pub struct CommitteeHistory {
    pub library_of_congress_name: Option<String>,
    pub official_name: Option<String>,
    pub start_date: Option<String>,
    pub end_date: Option<String>,
    pub update_date: Option<String>,
}

impl Decode for CommitteeHistory {
    open spec fn accepts(j: Json) -> bool {
        &&& j is Object
        &&& text_ok(j, "libraryOfCongressName"@)
        &&& text_ok(j, "officialName"@)
        &&& text_ok(j, "startDate"@)
        &&& text_ok(j, "endDate"@)
        &&& text_ok(j, "updateDate"@)
    }

    open spec fn decoded_from(self, j: Json) -> bool {
        &&& text_view(self.library_of_congress_name) == text_at(j, "libraryOfCongressName"@)
        &&& text_view(self.official_name) == text_at(j, "officialName"@)
        &&& text_view(self.start_date) == text_at(j, "startDate"@)
        &&& text_view(self.end_date) == text_at(j, "endDate"@)
        &&& text_view(self.update_date) == text_at(j, "updateDate"@)
    }

    fn decode(j: &Json) -> (r: Option<Self>) {
        if !j.is_object() {
            return None;
        }
        let library_of_congress_name = text_field(j, "libraryOfCongressName")?;
        let official_name = text_field(j, "officialName")?;
        let start_date = text_field(j, "startDate")?;
        let end_date = text_field(j, "endDate")?;
        let update_date = text_field(j, "updateDate")?;
        Some(CommitteeHistory {
            library_of_congress_name,
            official_name,
            start_date,
            end_date,
            update_date,
        })
    }
}

/// A resource count with URL.
#[derive(Debug, Clone, PartialEq, Eq)]
pub struct ResourceCount {
    pub count: Option<i32>,
    pub url: Option<String>,
}

impl Decode for ResourceCount {
    open spec fn accepts(j: Json) -> bool {
        &&& j is Object
        &&& i32_ok(j, "count"@)
        &&& text_ok(j, "url"@)
    }

    open spec fn decoded_from(self, j: Json) -> bool {
        &&& self.count == i32_at(j, "count"@)
        &&& text_view(self.url) == text_at(j, "url"@)
    }

    fn decode(j: &Json) -> (r: Option<Self>) {
        if !j.is_object() {
            return None;
        }
        let count = i32_field(j, "count")?;
        let url = text_field(j, "url")?;
        Some(ResourceCount { count, url })
    }
}

/// Detailed committee information.
#[derive(Debug, Clone, PartialEq, Eq)]
pub struct CommitteeDetailInfo {
    pub bills: Option<ResourceCount>,
    pub communications: Option<ResourceCount>,
    pub history: Option<Vec<CommitteeHistory>>,
    pub is_current: Option<bool>,
    pub reports: Option<ResourceCount>,
    pub subcommittees: Option<Vec<Subcommittee>>,
    pub system_code: Option<String>,
    pub committee_type: Option<String>,
    pub update_date: Option<String>,
}

impl Decode for CommitteeDetailInfo {
    open spec fn accepts(j: Json) -> bool {
        &&& j is Object
        &&& record_ok::<ResourceCount>(j, "bills"@)
        &&& record_ok::<ResourceCount>(j, "communications"@)
        &&& opt_list_ok::<CommitteeHistory>(j, "history"@)
        &&& bool_ok(j, "isCurrent"@)
        &&& record_ok::<ResourceCount>(j, "reports"@)
        &&& opt_list_ok::<Subcommittee>(j, "subcommittees"@)
        &&& text_ok(j, "systemCode"@)
        &&& text_ok(j, "type"@)
        &&& text_ok(j, "updateDate"@)
    }

    open spec fn decoded_from(self, j: Json) -> bool {
        &&& record_is(self.bills, j, "bills"@)
        &&& record_is(self.communications, j, "communications"@)
        &&& opt_list_is(self.history, j, "history"@)
        &&& self.is_current == bool_at(j, "isCurrent"@)
        &&& record_is(self.reports, j, "reports"@)
        &&& opt_list_is(self.subcommittees, j, "subcommittees"@)
        &&& text_view(self.system_code) == text_at(j, "systemCode"@)
        &&& text_view(self.committee_type) == text_at(j, "type"@)
        &&& text_view(self.update_date) == text_at(j, "updateDate"@)
    }

    fn decode(j: &Json) -> (r: Option<Self>) {
        if !j.is_object() {
            return None;
        }
        let bills = record_field(j, "bills")?;
        let communications = record_field(j, "communications")?;
        let history = list_field(j, "history")?;
        let is_current = bool_field(j, "isCurrent")?;
        let reports = record_field(j, "reports")?;
        let subcommittees = list_field(j, "subcommittees")?;
        let system_code = text_field(j, "systemCode")?;
        let committee_type = text_field(j, "type")?;
        let update_date = text_field(j, "updateDate")?;
        Some(CommitteeDetailInfo {
            bills,
            communications,
            history,
            is_current,
            reports,
            subcommittees,
            system_code,
            committee_type,
            update_date,
        })
    }
}

/// A committee bill relationship.
#[derive(Debug, Clone, PartialEq, Eq)]
pub struct CommitteeBill {
    pub action_date: Option<String>,
    pub congress: Option<i32>,
    pub number: Option<String>,
    pub relationship_type: Option<String>,
    pub bill_type: Option<String>,
    pub update_date: Option<String>,
    pub url: Option<String>,
}

impl Decode for CommitteeBill {
    open spec fn accepts(j: Json) -> bool {
        &&& j is Object
        &&& text_ok(j, "actionDate"@)
        &&& i32_ok(j, "congress"@)
        &&& text_ok(j, "number"@)
        &&& text_ok(j, "relationshipType"@)
        &&& text_ok(j, "type"@)
        &&& text_ok(j, "updateDate"@)
        &&& text_ok(j, "url"@)
    }

    open spec fn decoded_from(self, j: Json) -> bool {
        &&& text_view(self.action_date) == text_at(j, "actionDate"@)
        &&& self.congress == i32_at(j, "congress"@)
        &&& text_view(self.number) == text_at(j, "number"@)
        &&& text_view(self.relationship_type) == text_at(j, "relationshipType"@)
        &&& text_view(self.bill_type) == text_at(j, "type"@)
        &&& text_view(self.update_date) == text_at(j, "updateDate"@)
        &&& text_view(self.url) == text_at(j, "url"@)
    }

    fn decode(j: &Json) -> (r: Option<Self>) {
        if !j.is_object() {
            return None;
        }
        let action_date = text_field(j, "actionDate")?;
        let congress = i32_field(j, "congress")?;
        let number = text_field(j, "number")?;
        let relationship_type = text_field(j, "relationshipType")?;
        let bill_type = text_field(j, "type")?;
        let update_date = text_field(j, "updateDate")?;
        let url = text_field(j, "url")?;
        Some(CommitteeBill {
            action_date,
            congress,
            number,
            relationship_type,
            bill_type,
            update_date,
            url,
        })
    }
}

/// A committee report.
#[derive(Debug, Clone, PartialEq, Eq)]
pub struct CommitteeReportItem {
    pub citation: Option<String>,
    pub congress: Option<i32>,
    pub number: Option<String>,
    pub part: Option<i32>,
    pub report_type: Option<String>,
    pub update_date: Option<String>,
    pub url: Option<String>,
}

impl Decode for CommitteeReportItem {
    open spec fn accepts(j: Json) -> bool {
        &&& j is Object
        &&& text_ok(j, "citation"@)
        &&& i32_ok(j, "congress"@)
        &&& text_ok(j, "number"@)
        &&& i32_ok(j, "part"@)
        &&& text_ok(j, "type"@)
        &&& text_ok(j, "updateDate"@)
        &&& text_ok(j, "url"@)
    }

    open spec fn decoded_from(self, j: Json) -> bool {
        &&& text_view(self.citation) == text_at(j, "citation"@)
        &&& self.congress == i32_at(j, "congress"@)
        &&& text_view(self.number) == text_at(j, "number"@)
        &&& self.part == i32_at(j, "part"@)
        &&& text_view(self.report_type) == text_at(j, "type"@)
        &&& text_view(self.update_date) == text_at(j, "updateDate"@)
        &&& text_view(self.url) == text_at(j, "url"@)
    }

    fn decode(j: &Json) -> (r: Option<Self>) {
        if !j.is_object() {
            return None;
        }
        let citation = text_field(j, "citation")?;
        let congress = i32_field(j, "congress")?;
        let number = text_field(j, "number")?;
        let part = i32_field(j, "part")?;
        let report_type = text_field(j, "type")?;
        let update_date = text_field(j, "updateDate")?;
        let url = text_field(j, "url")?;
        Some(CommitteeReportItem {
            citation,
            congress,
            number,
            part,
            report_type,
            update_date,
            url,
        })
    }
}

/// Detailed committee report information.
#[derive(Debug, Clone, PartialEq, Eq)]
pub struct CommitteeReportDetail {
    pub citation: Option<String>,
    pub congress: Option<i32>,
    pub is_conference_report: Option<bool>,
    pub number: Option<String>,
    pub part: Option<i32>,
    pub text: Option<ResourceCount>,
    pub title: Option<String>,
    pub report_type: Option<String>,
    pub update_date: Option<String>,
}

impl Decode for CommitteeReportDetail {
    open spec fn accepts(j: Json) -> bool {
        &&& j is Object
        &&& text_ok(j, "citation"@)
        &&& i32_ok(j, "congress"@)
        &&& bool_ok(j, "isConferenceReport"@)
        &&& text_ok(j, "number"@)
        &&& i32_ok(j, "part"@)
        &&& record_ok::<ResourceCount>(j, "text"@)
        &&& text_ok(j, "title"@)
        &&& text_ok(j, "type"@)
        &&& text_ok(j, "updateDate"@)
    }

    open spec fn decoded_from(self, j: Json) -> bool {
        &&& text_view(self.citation) == text_at(j, "citation"@)
        &&& self.congress == i32_at(j, "congress"@)
        &&& self.is_conference_report == bool_at(j, "isConferenceReport"@)
        &&& text_view(self.number) == text_at(j, "number"@)
        &&& self.part == i32_at(j, "part"@)
        &&& record_is(self.text, j, "text"@)
        &&& text_view(self.title) == text_at(j, "title"@)
        &&& text_view(self.report_type) == text_at(j, "type"@)
        &&& text_view(self.update_date) == text_at(j, "updateDate"@)
    }

    fn decode(j: &Json) -> (r: Option<Self>) {
        if !j.is_object() {
            return None;
        }
        let citation = text_field(j, "citation")?;
        let congress = i32_field(j, "congress")?;
        let is_conference_report = bool_field(j, "isConferenceReport")?;
        let number = text_field(j, "number")?;
        let part = i32_field(j, "part")?;
        let text = record_field(j, "text")?;
        let title = text_field(j, "title")?;
        let report_type = text_field(j, "type")?;
        let update_date = text_field(j, "updateDate")?;
        Some(CommitteeReportDetail {
            citation,
            congress,
            is_conference_report,
            number,
            part,
            text,
            title,
            report_type,
            update_date,
        })
    }
}

/// Committee report text format.
#[derive(Debug, Clone, PartialEq, Eq)]
pub struct CommitteeReportText {
    pub text_type: Option<String>,
    pub url: Option<String>,
}

impl Decode for CommitteeReportText {
    open spec fn accepts(j: Json) -> bool {
        &&& j is Object
        &&& text_ok(j, "type"@)
        &&& text_ok(j, "url"@)
    }

    open spec fn decoded_from(self, j: Json) -> bool {
        &&& text_view(self.text_type) == text_at(j, "type"@)
        &&& text_view(self.url) == text_at(j, "url"@)
    }

    fn decode(j: &Json) -> (r: Option<Self>) {
        if !j.is_object() {
            return None;
        }
        let text_type = text_field(j, "type")?;
        let url = text_field(j, "url")?;
        Some(CommitteeReportText { text_type, url })
    }
}

/// A committee print.
#[derive(Debug, Clone, PartialEq, Eq)]
pub struct CommitteePrintItem {
    pub chamber: Option<String>,
    pub citation: Option<String>,
    pub congress: Option<i32>,
    pub jacket_number: Option<i32>,
    pub number: Option<String>,
    pub title: Option<String>,
    pub update_date: Option<String>,
}

impl Decode for CommitteePrintItem {
    open spec fn accepts(j: Json) -> bool {
        &&& j is Object
        &&& text_ok(j, "chamber"@)
        &&& text_ok(j, "citation"@)
        &&& i32_ok(j, "congress"@)
        &&& i32_ok(j, "jacketNumber"@)
        &&& text_ok(j, "number"@)
        &&& text_ok(j, "title"@)
        &&& text_ok(j, "updateDate"@)
    }

    open spec fn decoded_from(self, j: Json) -> bool {
        &&& text_view(self.chamber) == text_at(j, "chamber"@)
        &&& text_view(self.citation) == text_at(j, "citation"@)
        &&& self.congress == i32_at(j, "congress"@)
        &&& self.jacket_number == i32_at(j, "jacketNumber"@)
        &&& text_view(self.number) == text_at(j, "number"@)
        &&& text_view(self.title) == text_at(j, "title"@)
        &&& text_view(self.update_date) == text_at(j, "updateDate"@)
    }

    fn decode(j: &Json) -> (r: Option<Self>) {
        if !j.is_object() {
            return None;
        }
        let chamber = text_field(j, "chamber")?;
        let citation = text_field(j, "citation")?;
        let congress = i32_field(j, "congress")?;
        let jacket_number = i32_field(j, "jacketNumber")?;
        let number = text_field(j, "number")?;
        let title = text_field(j, "title")?;
        let update_date = text_field(j, "updateDate")?;
        Some(CommitteePrintItem {
            chamber,
            citation,
            congress,
            jacket_number,
            number,
            title,
            update_date,
        })
    }
}

/// Detailed committee print information.
#[derive(Debug, Clone, PartialEq, Eq)]
pub struct CommitteePrintDetail {
    pub chamber: Option<String>,
    pub citation: Option<String>,
    pub congress: Option<i32>,
    pub jacket_number: Option<i32>,
    pub number: Option<String>,
    pub text: Option<ResourceCount>,
    pub title: Option<String>,
    pub update_date: Option<String>,
}

impl Decode for CommitteePrintDetail {
    open spec fn accepts(j: Json) -> bool {
        &&& j is Object
        &&& text_ok(j, "chamber"@)
        &&& text_ok(j, "citation"@)
        &&& i32_ok(j, "congress"@)
        &&& i32_ok(j, "jacketNumber"@)
        &&& text_ok(j, "number"@)
        &&& record_ok::<ResourceCount>(j, "text"@)
        &&& text_ok(j, "title"@)
        &&& text_ok(j, "updateDate"@)
    }

    open spec fn decoded_from(self, j: Json) -> bool {
        &&& text_view(self.chamber) == text_at(j, "chamber"@)
        &&& text_view(self.citation) == text_at(j, "citation"@)
        &&& self.congress == i32_at(j, "congress"@)
        &&& self.jacket_number == i32_at(j, "jacketNumber"@)
        &&& text_view(self.number) == text_at(j, "number"@)
        &&& record_is(self.text, j, "text"@)
        &&& text_view(self.title) == text_at(j, "title"@)
        &&& text_view(self.update_date) == text_at(j, "updateDate"@)
    }

    fn decode(j: &Json) -> (r: Option<Self>) {
        if !j.is_object() {
            return None;
        }
        let chamber = text_field(j, "chamber")?;
        let citation = text_field(j, "citation")?;
        let congress = i32_field(j, "congress")?;
        let jacket_number = i32_field(j, "jacketNumber")?;
        let number = text_field(j, "number")?;
        let text = record_field(j, "text")?;
        let title = text_field(j, "title")?;
        let update_date = text_field(j, "updateDate")?;
        Some(CommitteePrintDetail {
            chamber,
            citation,
            congress,
            jacket_number,
            number,
            text,
            title,
            update_date,
        })
    }
}

/// Committee print text format.
#[derive(Debug, Clone, PartialEq, Eq)]
pub struct CommitteePrintText {
    pub text_type: Option<String>,
    pub url: Option<String>,
}

impl Decode for CommitteePrintText {
    open spec fn accepts(j: Json) -> bool {
        &&& j is Object
        &&& text_ok(j, "type"@)
        &&& text_ok(j, "url"@)
    }

    open spec fn decoded_from(self, j: Json) -> bool {
        &&& text_view(self.text_type) == text_at(j, "type"@)
        &&& text_view(self.url) == text_at(j, "url"@)
    }

    fn decode(j: &Json) -> (r: Option<Self>) {
        if !j.is_object() {
            return None;
        }
        let text_type = text_field(j, "type")?;
        let url = text_field(j, "url")?;
        Some(CommitteePrintText { text_type, url })
    }
}

/// Envelope that holds `committees`.
#[derive(Debug, Clone, PartialEq, Eq)]
pub struct CommitteesResponse {
    pub committees: Vec<CommitteeItem>,
}

impl Decode for CommitteesResponse {
    open spec fn accepts(j: Json) -> bool {
        &&& j is Object
        &&& req_list_ok::<CommitteeItem>(j, "committees"@)
    }

    open spec fn decoded_from(self, j: Json) -> bool {
        &&& req_list_is(self.committees, j, "committees"@)
    }

    fn decode(j: &Json) -> (r: Option<Self>) {
        if !j.is_object() {
            return None;
        }
        let committees = req_list_field(j, "committees")?;
        Some(CommitteesResponse { committees })
    }
}

/// Envelope that holds `committee`.
#[derive(Debug, Clone, PartialEq, Eq)]
pub struct CommitteeDetailResponse {
    pub committee: CommitteeDetailInfo,
}

impl Decode for CommitteeDetailResponse {
    open spec fn accepts(j: Json) -> bool {
        &&& j is Object
        &&& req_record_ok::<CommitteeDetailInfo>(j, "committee"@)
    }

    open spec fn decoded_from(self, j: Json) -> bool {
        &&& req_record_is(self.committee, j, "committee"@)
    }

    fn decode(j: &Json) -> (r: Option<Self>) {
        if !j.is_object() {
            return None;
        }
        let committee = req_record_field(j, "committee")?;
        Some(CommitteeDetailResponse { committee })
    }
}

/// Envelope that holds `bills`.
#[derive(Debug, Clone, PartialEq, Eq)]
pub struct CommitteeBillsResponse {
    pub bills: Vec<CommitteeBill>,
}

impl Decode for CommitteeBillsResponse {
    open spec fn accepts(j: Json) -> bool {
        &&& j is Object
        &&& req_list_ok::<CommitteeBill>(j, "bills"@)
    }

    open spec fn decoded_from(self, j: Json) -> bool {
        &&& req_list_is(self.bills, j, "bills"@)
    }

    fn decode(j: &Json) -> (r: Option<Self>) {
        if !j.is_object() {
            return None;
        }
        let bills = req_list_field(j, "bills")?;
        Some(CommitteeBillsResponse { bills })
    }
}

/// Envelope that holds `reports`.
#[derive(Debug, Clone, PartialEq, Eq)]
pub struct CommitteeReportsResponse {
    pub reports: Vec<CommitteeReportItem>,
}

impl Decode for CommitteeReportsResponse {
    open spec fn accepts(j: Json) -> bool {
        &&& j is Object
        &&& req_list_ok::<CommitteeReportItem>(j, "reports"@)
    }

    open spec fn decoded_from(self, j: Json) -> bool {
        &&& req_list_is(self.reports, j, "reports"@)
    }

    fn decode(j: &Json) -> (r: Option<Self>) {
        if !j.is_object() {
            return None;
        }
        let reports = req_list_field(j, "reports")?;
        Some(CommitteeReportsResponse { reports })
    }
}

/// Envelope that holds `report`.
#[derive(Debug, Clone, PartialEq, Eq)]
pub struct CommitteeReportDetailResponse {
    pub report: CommitteeReportDetail,
}

impl Decode for CommitteeReportDetailResponse {
    open spec fn accepts(j: Json) -> bool {
        &&& j is Object
        &&& req_record_ok::<CommitteeReportDetail>(j, "report"@)
    }

    open spec fn decoded_from(self, j: Json) -> bool {
        &&& req_record_is(self.report, j, "report"@)
    }

    fn decode(j: &Json) -> (r: Option<Self>) {
        if !j.is_object() {
            return None;
        }
        let report = req_record_field(j, "report")?;
        Some(CommitteeReportDetailResponse { report })
    }
}

/// Envelope that holds `text`.
#[derive(Debug, Clone, PartialEq, Eq)]
pub struct CommitteeReportTextResponse {
    pub text: Vec<CommitteeReportText>,
}

impl Decode for CommitteeReportTextResponse {
    open spec fn accepts(j: Json) -> bool {
        &&& j is Object
        &&& req_list_ok::<CommitteeReportText>(j, "text"@)
    }

    open spec fn decoded_from(self, j: Json) -> bool {
        &&& req_list_is(self.text, j, "text"@)
    }

    fn decode(j: &Json) -> (r: Option<Self>) {
        if !j.is_object() {
            return None;
        }
        let text = req_list_field(j, "text")?;
        Some(CommitteeReportTextResponse { text })
    }
}

/// Envelope that holds `committeePrints`.
#[derive(Debug, Clone, PartialEq, Eq)]
pub struct CommitteePrintsResponse {
    pub committee_prints: Vec<CommitteePrintItem>,
}

impl Decode for CommitteePrintsResponse {
    open spec fn accepts(j: Json) -> bool {
        &&& j is Object
        &&& req_list_ok::<CommitteePrintItem>(j, "committeePrints"@)
    }

    open spec fn decoded_from(self, j: Json) -> bool {
        &&& req_list_is(self.committee_prints, j, "committeePrints"@)
    }

    fn decode(j: &Json) -> (r: Option<Self>) {
        if !j.is_object() {
            return None;
        }
        let committee_prints = req_list_field(j, "committeePrints")?;
        Some(CommitteePrintsResponse { committee_prints })
    }
}

/// Envelope that holds `committeePrint`.
#[derive(Debug, Clone, PartialEq, Eq)]
pub struct CommitteePrintDetailResponse {
    pub committee_print: CommitteePrintDetail,
}

impl Decode for CommitteePrintDetailResponse {
    open spec fn accepts(j: Json) -> bool {
        &&& j is Object
        &&& req_record_ok::<CommitteePrintDetail>(j, "committeePrint"@)
    }

    open spec fn decoded_from(self, j: Json) -> bool {
        &&& req_record_is(self.committee_print, j, "committeePrint"@)
    }

    fn decode(j: &Json) -> (r: Option<Self>) {
        if !j.is_object() {
            return None;
        }
        let committee_print = req_record_field(j, "committeePrint")?;
        Some(CommitteePrintDetailResponse { committee_print })
    }
}

/// Envelope that holds `text`.
#[derive(Debug, Clone, PartialEq, Eq)]
pub struct CommitteePrintTextResponse {
    pub text: Vec<CommitteePrintText>,
}

impl Decode for CommitteePrintTextResponse {
    open spec fn accepts(j: Json) -> bool {
        &&& j is Object
        &&& req_list_ok::<CommitteePrintText>(j, "text"@)
    }

    open spec fn decoded_from(self, j: Json) -> bool {
        &&& req_list_is(self.text, j, "text"@)
    }

    fn decode(j: &Json) -> (r: Option<Self>) {
        if !j.is_object() {
            return None;
        }
        let text = req_list_field(j, "text")?;
        Some(CommitteePrintTextResponse { text })
    }
}

} // verus!
