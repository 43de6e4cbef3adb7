//! Congressional Research Service reports.
use vstd::prelude::*;
use crate::decode::{
    Decode, text_ok, text_at, text_view, text_field, i32_ok, i32_at, i32_field, opt_list_ok,
    opt_list_is, list_field, req_list_ok, req_list_is, req_list_field, req_record_ok,
    req_record_is, req_record_field,
};
use crate::json::Json;

verus! {

/// A CRS report format.
#[derive(Debug, Clone, PartialEq, Eq)]
pub struct CrsReportFormat {
    pub format: Option<String>,
    pub url: Option<String>,
}

impl Decode for CrsReportFormat {
    open spec fn accepts(j: Json) -> bool {
        &&& j is Object
        &&& text_ok(j, "format"@)
        &&& text_ok(j, "url"@)
    }

    open spec fn decoded_from(self, j: Json) -> bool {
        &&& text_view(self.format) == text_at(j, "format"@)
        &&& text_view(self.url) == text_at(j, "url"@)
    }

    fn decode(j: &Json) -> (r: Option<Self>) {
        if !j.is_object() {
            return None;
        }
        let format = text_field(j, "format")?;
        let url = text_field(j, "url")?;
        Some(CrsReportFormat { format, url })
    }
}

/// An author of a CRS report.
#[derive(Debug, Clone, PartialEq, Eq)]
pub struct CrsReportAuthor {
    pub author: Option<String>,
}

impl Decode for CrsReportAuthor {
    open spec fn accepts(j: Json) -> bool {
        &&& j is Object
        &&& text_ok(j, "author"@)
    }

    open spec fn decoded_from(self, j: Json) -> bool {
        &&& text_view(self.author) == text_at(j, "author"@)
    }

    fn decode(j: &Json) -> (r: Option<Self>) {
        if !j.is_object() {
            return None;
        }
        let author = text_field(j, "author")?;
        Some(CrsReportAuthor { author })
    }
}

/// A topic of a CRS report.
#[derive(Debug, Clone, PartialEq, Eq)]
pub struct CrsReportTopic {
    pub topic: Option<String>,
}

impl Decode for CrsReportTopic {
    open spec fn accepts(j: Json) -> bool {
        &&& j is Object
        &&& text_ok(j, "topic"@)
    }

    open spec fn decoded_from(self, j: Json) -> bool {
        &&& text_view(self.topic) == text_at(j, "topic"@)
    }

    fn decode(j: &Json) -> (r: Option<Self>) {
        if !j.is_object() {
            return None;
        }
        let topic = text_field(j, "topic")?;
        Some(CrsReportTopic { topic })
    }
}

/// Related material for a CRS report.
#[derive(Debug, Clone, PartialEq, Eq)]
pub struct CrsReportRelatedMaterial {
    pub url: Option<String>,
    pub congress: Option<i32>,
    pub number: Option<String>,
    pub title: Option<String>,
    pub material_type: Option<String>,
}

impl Decode for CrsReportRelatedMaterial {
    open spec fn accepts(j: Json) -> bool {
        &&& j is Object
        &&& text_ok(j, "URL"@)
        &&& i32_ok(j, "congress"@)
        &&& text_ok(j, "number"@)
        &&& text_ok(j, "title"@)
        &&& text_ok(j, "type"@)
    }

    open spec fn decoded_from(self, j: Json) -> bool {
        &&& text_view(self.url) == text_at(j, "URL"@)
        &&& self.congress == i32_at(j, "congress"@)
        &&& text_view(self.number) == text_at(j, "number"@)
        &&& text_view(self.title) == text_at(j, "title"@)
        &&& text_view(self.material_type) == text_at(j, "type"@)
    }

    fn decode(j: &Json) -> (r: Option<Self>) {
        if !j.is_object() {
            return None;
        }
        let url = text_field(j, "URL")?;
        let congress = i32_field(j, "congress")?;
        let number = text_field(j, "number")?;
        let title = text_field(j, "title")?;
        let material_type = text_field(j, "type")?;
        Some(CrsReportRelatedMaterial { url, congress, number, title, material_type })
    }
}

/// A CRS report in list responses.
#[derive(Debug, Clone, PartialEq, Eq)]
pub struct CrsReport {
    pub content_type: Option<String>,
    pub id: Option<String>,
    pub publish_date: Option<String>,
    pub status: Option<String>,
    pub title: Option<String>,
    pub update_date: Option<String>,
    pub url: Option<String>,
    pub version: Option<i32>,
}

impl Decode for CrsReport {
    open spec fn accepts(j: Json) -> bool {
        &&& j is Object
        &&& text_ok(j, "contentType"@)
        &&& text_ok(j, "id"@)
        &&& text_ok(j, "publishDate"@)
        &&& text_ok(j, "status"@)
        &&& text_ok(j, "title"@)
        &&& text_ok(j, "updateDate"@)
        &&& text_ok(j, "url"@)
        &&& i32_ok(j, "version"@)
    }

    open spec fn decoded_from(self, j: Json) -> bool {
        &&& text_view(self.content_type) == text_at(j, "contentType"@)
        &&& text_view(self.id) == text_at(j, "id"@)
        &&& text_view(self.publish_date) == text_at(j, "publishDate"@)
        &&& text_view(self.status) == text_at(j, "status"@)
        &&& text_view(self.title) == text_at(j, "title"@)
        &&& text_view(self.update_date) == text_at(j, "updateDate"@)
        &&& text_view(self.url) == text_at(j, "url"@)
        &&& self.version == i32_at(j, "version"@)
    }

    fn decode(j: &Json) -> (r: Option<Self>) {
        if !j.is_object() {
            return None;
        }
        let content_type = text_field(j, "contentType")?;
        let id = text_field(j, "id")?;
        let publish_date = text_field(j, "publishDate")?;
        let status = text_field(j, "status")?;
        let title = text_field(j, "title")?;
        let update_date = text_field(j, "updateDate")?;
        let url = text_field(j, "url")?;
        let version = i32_field(j, "version")?;
        Some(CrsReport { content_type, id, publish_date, status, title, update_date, url, version })
    }
}

/// Detailed information about a CRS report.
#[derive(Debug, Clone, PartialEq, Eq)]
pub struct CrsReportDetail {
    pub authors: Option<Vec<CrsReportAuthor>>,
    pub content_type: Option<String>,
    pub formats: Option<Vec<CrsReportFormat>>,
    pub id: Option<String>,
    pub publish_date: Option<String>,
    pub related_materials: Option<Vec<CrsReportRelatedMaterial>>,
    pub status: Option<String>,
    pub summary: Option<String>,
    pub title: Option<String>,
    pub topics: Option<Vec<CrsReportTopic>>,
    pub update_date: Option<String>,
    pub url: Option<String>,
    pub version: Option<i32>,
}

impl Decode for CrsReportDetail {
    open spec fn accepts(j: Json) -> bool {
        &&& j is Object
        &&& opt_list_ok::<CrsReportAuthor>(j, "authors"@)
        &&& text_ok(j, "contentType"@)
        &&& opt_list_ok::<CrsReportFormat>(j, "formats"@)
        &&& text_ok(j, "id"@)
        &&& text_ok(j, "publishDate"@)
        &&& opt_list_ok::<CrsReportRelatedMaterial>(j, "relatedMaterials"@)
        &&& text_ok(j, "status"@)
        &&& text_ok(j, "summary"@)
        &&& text_ok(j, "title"@)
        &&& opt_list_ok::<CrsReportTopic>(j, "topics"@)
        &&& text_ok(j, "updateDate"@)
        &&& text_ok(j, "url"@)
        &&& i32_ok(j, "version"@)
    }

    open spec fn decoded_from(self, j: Json) -> bool {
        &&& opt_list_is(self.authors, j, "authors"@)
        &&& text_view(self.content_type) == text_at(j, "contentType"@)
        &&& opt_list_is(self.formats, j, "formats"@)
        &&& text_view(self.id) == text_at(j, "id"@)
        &&& text_view(self.publish_date) == text_at(j, "publishDate"@)
        &&& opt_list_is(self.related_materials, j, "relatedMaterials"@)
        &&& text_view(self.status) == text_at(j, "status"@)
        &&& text_view(self.summary) == text_at(j, "summary"@)
        &&& text_view(self.title) == text_at(j, "title"@)
        &&& opt_list_is(self.topics, j, "topics"@)
        &&& text_view(self.update_date) == text_at(j, "updateDate"@)
        &&& text_view(self.url) == text_at(j, "url"@)
        &&& self.version == i32_at(j, "version"@)
    }

    fn decode(j: &Json) -> (r: Option<Self>) {
        if !j.is_object() {
            return None;
        }
        let authors = list_field(j, "authors")?;
        let content_type = text_field(j, "contentType")?;
        let formats = list_field(j, "formats")?;
        let id = text_field(j, "id")?;
        let publish_date = text_field(j, "publishDate")?;
        let related_materials = list_field(j, "relatedMaterials")?;
        let status = text_field(j, "status")?;
        let summary = text_field(j, "summary")?;
        let title = text_field(j, "title")?;
        let topics = list_field(j, "topics")?;
        let update_date = text_field(j, "updateDate")?;
        let url = text_field(j, "url")?;
        let version = i32_field(j, "version")?;
        Some(CrsReportDetail {
            authors,
            content_type,
            formats,
            id,
            publish_date,
            related_materials,
            status,
            summary,
            title,
            topics,
            update_date,
            url,
            version,
        })
    }
}

/// Envelope that holds `CRSReports`.
#[derive(Debug, Clone, PartialEq, Eq)]
pub struct CrsReportsResponse {
    pub crs_reports: Vec<CrsReport>,
}

impl Decode for CrsReportsResponse {
    open spec fn accepts(j: Json) -> bool {
        &&& j is Object
        &&& req_list_ok::<CrsReport>(j, "CRSReports"@)
    }

    open spec fn decoded_from(self, j: Json) -> bool {
        &&& req_list_is(self.crs_reports, j, "CRSReports"@)
    }

    fn decode(j: &Json) -> (r: Option<Self>) {
        if !j.is_object() {
            return None;
        }
        let crs_reports = req_list_field(j, "CRSReports")?;
        Some(CrsReportsResponse { crs_reports })
    }
}

/// Envelope that holds `CRSReport`.
#[derive(Debug, Clone, PartialEq, Eq)]
pub struct CrsReportDetailResponse {
    pub report: CrsReportDetail,
}

impl Decode for CrsReportDetailResponse {
    open spec fn accepts(j: Json) -> bool {
        &&& j is Object
        &&& req_record_ok::<CrsReportDetail>(j, "CRSReport"@)
    }

    open spec fn decoded_from(self, j: Json) -> bool {
        &&& req_record_is(self.report, j, "CRSReport"@)
    }

    fn decode(j: &Json) -> (r: Option<Self>) {
        if !j.is_object() {
            return None;
        }
        let report = req_record_field(j, "CRSReport")?;
        Some(CrsReportDetailResponse { report })
    }
}

} // verus!
