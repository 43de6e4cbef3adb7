//! The API client: errors, the transport contract and one request builder per route.
//!
//! Each route method returns the [`Request`] to send. The caller sends it, hands
//! the status to [`check_status`], parses a successful body and hands it to
//! [`decode_body`] with the route's envelope type.
use vstd::prelude::*;
use vstd::string::*;
use crate::decode::Decode;
use crate::json::Json;
use crate::request::{
    Request, query_view, text_param, int_param, flag_param, push_text, push_int, push_flag,
};
use crate::text::{append_decimal, decimal, lowercase, lower_of, ascii_only, ascii_lower};

verus! {

/// Why a call failed.
#[derive(Debug, Clone, PartialEq, Eq)]
pub enum ApiError {
    /// No response was obtained: connection, DNS or TLS failure. Holds the cause.
    RequestFailed(String),
    /// The API answered with a status outside `200..=299`. Holds the status code.
    ApiError(u16),
    /// A successful answer's body is not JSON of the expected shape.
    ShapeMismatch,
}

/// The result of a call.
pub type ApiResult<T> = Result<T, ApiError>;

/// The text of an error's message.
pub open spec fn error_message(e: ApiError) -> Seq<char> {
    match e {
        ApiError::RequestFailed(cause) => "HTTP request failed: "@ + cause@,
        ApiError::ApiError(status) => "API error: API returned status: "@ + decimal(status as int),
        ApiError::ShapeMismatch => {
            "HTTP request failed: response body does not match the expected shape"@
        },
    }
}

impl ApiError {
    /// The HTTP status code of an API failure.
    pub fn status(&self) -> (r: Option<u16>)
        ensures
            r == match *self {
                ApiError::ApiError(s) => Some(s),
                _ => None::<u16>,
            },
    {
        match self {
            ApiError::ApiError(s) => Some(*s),
            _ => None,
        }
    }

    /// A one-line description of the error.
    pub fn message(&self) -> (r: String)
        ensures
            r@ == error_message(*self),
    {
        match self {
            ApiError::RequestFailed(cause) => {
                String::from_str("HTTP request failed: ").concat(cause.as_str())
            },
            ApiError::ApiError(status) => {
                let mut s = String::from_str("API error: API returned status: ");
                append_decimal(&mut s, *status as i64);
                s
            },
            ApiError::ShapeMismatch => {
                let m = "HTTP request failed: response body does not match the expected shape";
                String::from_str(m)
            },
        }
    }
}

/// The status code means success.
pub open spec fn success_status(status: u16) -> bool {
    200 <= status <= 299
}

/// Whether a status code means success.
pub fn is_success(status: u16) -> (r: bool)
    ensures
        r == success_status(status),
{
    200 <= status && status <= 299
}

/// Turns a status outside `200..=299` into an API failure that carries it.
pub fn check_status(status: u16) -> (r: ApiResult<()>)
    ensures
        success_status(status) ==> r == Ok::<(), ApiError>(()),
        !success_status(status) ==> r == Err::<(), ApiError>(ApiError::ApiError(status)),
{
    if is_success(status) {
        Ok(())
    } else {
        Err(ApiError::ApiError(status))
    }
}

/// Decodes the body of a successful answer as `T`.
///
/// `body` is `None` when the body text was not JSON.
pub fn decode_body<T: Decode>(body: Option<&Json>) -> (r: ApiResult<T>)
    ensures
        match body {
            None => r == Err::<T, ApiError>(ApiError::ShapeMismatch),
            Some(j) => match r {
                Ok(v) => T::accepts(*j) && v.decoded_from(*j),
                Err(e) => !T::accepts(*j) && e == ApiError::ShapeMismatch,
            },
        },
{
    match body {
        None => Err(ApiError::ShapeMismatch),
        Some(j) => match T::decode(j) {
            Some(v) => Ok(v),
            None => Err(ApiError::ShapeMismatch),
        },
    }
}

/// The result of a call from the answer's status and, where the body was
/// parsed, its JSON: an API failure carrying the status outside `200..=299`,
/// else the body decoded as `T`. The body is not read on a failure status.
pub fn response_result<T: Decode>(status: u16, body: Option<&Json>) -> (r: ApiResult<T>)
    ensures
        !success_status(status) ==> r == Err::<T, ApiError>(ApiError::ApiError(status)),
        success_status(status) ==> match body {
            None => r == Err::<T, ApiError>(ApiError::ShapeMismatch),
            Some(j) => match r {
                Ok(v) => T::accepts(*j) && v.decoded_from(*j),
                Err(e) => !T::accepts(*j) && e == ApiError::ShapeMismatch,
            },
        },
{
    match check_status(status) {
        Err(e) => Err(e),
        Ok(()) => decode_body(body),
    }
}

/// A path segment as sent: lower-cased, since the API matches these segments
/// case-sensitively and knows only their lower-case forms.
pub open spec fn lowered(s: Seq<char>) -> Seq<char> {
    if ascii_only(s) {
        ascii_lower(s)
    } else {
        lower_of(s)
    }
}

/// The base URL of the v3 API.
pub const BASE_URL: &'static str = "https://api.congress.gov/v3";

/// Holds the credential and base URL, and builds authenticated requests.
pub struct CongressApiClient {
    api_key: String,
    base_url: String,
}

impl CongressApiClient {
    /// The API key sent with every request.
    pub closed spec fn api_key_view(&self) -> Seq<char> {
        self.api_key@
    }

    /// The base URL that every path is joined to.
    pub closed spec fn base_url_view(&self) -> Seq<char> {
        self.base_url@
    }

    /// `r` is the GET request for `path` with the API key followed by `params`.
    pub open spec fn is_request(
        &self,
        r: Request,
        path: Seq<char>,
        params: Seq<(Seq<char>, Seq<char>)>,
    ) -> bool {
        &&& r.base_url@ == self.base_url_view()
        &&& r.path@ == path
        &&& query_view(r.query@) == seq![("api_key"@, self.api_key_view())] + params
    }

    /// A client for the public API with the given key.
    pub fn new(api_key: String) -> (r: Self)
        ensures
            r.api_key_view() == api_key@,
            r.base_url_view() == BASE_URL@,
    {
        CongressApiClient { api_key, base_url: String::from_str(BASE_URL) }
    }

    /// The request for `endpoint`: the API key first, then each given parameter in order.
    pub fn get(&self, endpoint: &str, params: Option<Vec<(String, String)>>) -> (r: Request)
        ensures
            self.is_request(
                r,
                endpoint@,
                match params {
                    Some(p) => query_view(p@),
                    None => seq![],
                },
            ),
    {
        let mut query: Vec<(String, String)> = Vec::new();
        query.push((String::from_str("api_key"), self.api_key.clone()));
        let ghost first = query@;
        match params {
            Some(p) => {
                let mut extra = p;
                query.append(&mut extra);
                proof {
                    assert(query_view(query@) =~= query_view(first) + query_view(p@));
                }
            },
            None => {},
        }
        proof {
            reveal_strlit("api_key");
            assert(query_view(first) =~= seq![("api_key"@, self.api_key_view())]);
        }
        Request {
            base_url: self.base_url.clone(),
            path: String::from_str(endpoint),
            query,
        }
    }
}

/// The kind of a law: public or private. Used by
/// [`CDGPythonClient::list_laws_by_type`] only, where it is a path segment.
#[derive(Debug, Clone, Copy, PartialEq, Eq)]
pub enum LawType {
    Public,
    Private,
}

impl LawType {
    /// The path segment: `pub` or `priv`.
    pub open spec fn segment_view(&self) -> Seq<char> {
        match *self {
            LawType::Public => "pub"@,
            LawType::Private => "priv"@,
        }
    }

    /// The path segment: `pub` or `priv`.
    pub fn segment(&self) -> (r: &'static str)
        ensures
            r@ == self.segment_view(),
    {
        match self {
            LawType::Public => "pub",
            LawType::Private => "priv",
        }
    }
}

/// The client with one request builder per API route.
pub struct CDGPythonClient {
    client: CongressApiClient,
}

impl CDGPythonClient {
    /// The API key sent with every request.
    pub closed spec fn api_key_view(&self) -> Seq<char> {
        self.client.api_key_view()
    }

    /// The base URL that every path is joined to.
    pub closed spec fn base_url_view(&self) -> Seq<char> {
        self.client.base_url_view()
    }

    /// `r` is the GET request for `path` with the API key followed by `params`.
    pub open spec fn is_request(
        &self,
        r: Request,
        path: Seq<char>,
        params: Seq<(Seq<char>, Seq<char>)>,
    ) -> bool {
        &&& r.base_url@ == self.base_url_view()
        &&& r.path@ == path
        &&& query_view(r.query@) == seq![("api_key"@, self.api_key_view())] + params
    }

    /// A client for the public API with the given key.
    pub fn new(api_key: String) -> (r: Self)
        ensures
            r.api_key_view() == api_key@,
            r.base_url_view() == BASE_URL@,
    {
        CDGPythonClient { client: CongressApiClient::new(api_key) }
    }

    /// Requests a list of bills sorted by date of latest action.
    ///
    /// The answer decodes as [`crate::bills::BillsResponse`].
    pub fn list_bills(
        &self,
        format: Option<String>,
        offset: Option<i32>,
        limit: Option<i32>,
        from_date_time: Option<String>,
        to_date_time: Option<String>,
    ) -> (r: Request)
        ensures
            self.is_request(
                r,
                "/bill"@,
                text_param("format"@, format)
                    + int_param("offset"@, offset)
                    + int_param("limit"@, limit)
                    + text_param("fromDateTime"@, from_date_time)
                    + text_param("toDateTime"@, to_date_time),
            ),
    {
        let mut params: Vec<(String, String)> = Vec::new();
        push_text(&mut params, "format", format);
        push_int(&mut params, "offset", offset);
        push_int(&mut params, "limit", limit);
        push_text(&mut params, "fromDateTime", from_date_time);
        push_text(&mut params, "toDateTime", to_date_time);
        proof {
            assert(query_view(params@) =~= text_param("format"@, format)
                + int_param("offset"@, offset)
                + int_param("limit"@, limit)
                + text_param("fromDateTime"@, from_date_time)
                + text_param("toDateTime"@, to_date_time));
        }
        self.client.get("/bill", Some(params))
    }

    /// Requests bills filtered by congress.
    ///
    /// The answer decodes as [`crate::bills::BillsResponse`].
    pub fn list_bills_by_congress(
        &self,
        congress: i32,
        format: Option<String>,
        offset: Option<i32>,
        limit: Option<i32>,
        from_date_time: Option<String>,
        to_date_time: Option<String>,
    ) -> (r: Request)
        ensures
            self.is_request(
                r,
                "/bill/"@ + decimal(congress as int),
                text_param("format"@, format)
                    + int_param("offset"@, offset)
                    + int_param("limit"@, limit)
                    + text_param("fromDateTime"@, from_date_time)
                    + text_param("toDateTime"@, to_date_time),
            ),
    {
        let mut params: Vec<(String, String)> = Vec::new();
        push_text(&mut params, "format", format);
        push_int(&mut params, "offset", offset);
        push_int(&mut params, "limit", limit);
        push_text(&mut params, "fromDateTime", from_date_time);
        push_text(&mut params, "toDateTime", to_date_time);
        proof {
            assert(query_view(params@) =~= text_param("format"@, format)
                + int_param("offset"@, offset)
                + int_param("limit"@, limit)
                + text_param("fromDateTime"@, from_date_time)
                + text_param("toDateTime"@, to_date_time));
        }
        let mut path = String::from_str("/bill/");
        append_decimal(&mut path, congress as i64);
        self.client.get(path.as_str(), Some(params))
    }

    /// Requests bills filtered by congress and bill type.
    ///
    /// The answer decodes as [`crate::bills::BillsResponse`].
    pub fn list_bills_by_type(
        &self,
        congress: i32,
        bill_type: String,
        format: Option<String>,
        offset: Option<i32>,
        limit: Option<i32>,
        from_date_time: Option<String>,
        to_date_time: Option<String>,
    ) -> (r: Request)
        ensures
            self.is_request(
                r,
                "/bill/"@ + decimal(congress as int) + "/"@ + lowered(bill_type@),
                text_param("format"@, format)
                    + int_param("offset"@, offset)
                    + int_param("limit"@, limit)
                    + text_param("fromDateTime"@, from_date_time)
                    + text_param("toDateTime"@, to_date_time),
            ),
            r.path@ == "/bill/"@ + decimal(congress as int) + "/"@ + lower_of(bill_type@),
    {
        let mut params: Vec<(String, String)> = Vec::new();
        push_text(&mut params, "format", format);
        push_int(&mut params, "offset", offset);
        push_int(&mut params, "limit", limit);
        push_text(&mut params, "fromDateTime", from_date_time);
        push_text(&mut params, "toDateTime", to_date_time);
        proof {
            assert(query_view(params@) =~= text_param("format"@, format)
                + int_param("offset"@, offset)
                + int_param("limit"@, limit)
                + text_param("fromDateTime"@, from_date_time)
                + text_param("toDateTime"@, to_date_time));
        }
        let mut path = String::from_str("/bill/");
        append_decimal(&mut path, congress as i64);
        path.append("/");
        path.append(lowercase(bill_type.as_str()).as_str());
        self.client.get(path.as_str(), Some(params))
    }

    /// Requests detailed information for a specified bill.
    ///
    /// The answer decodes as [`crate::bills::BillDetailResponse`].
    pub fn get_bill(&self, congress: i32, bill_type: String, bill_number: i32) -> (r: Request)
        ensures
            self.is_request(
                r,
                "/bill/"@
                    + decimal(congress as int)
                    + "/"@
                    + lowered(bill_type@)
                    + "/"@
                    + decimal(bill_number as int),
                seq![],
            ),
            r.path@ == "/bill/"@
                + decimal(congress as int)
                + "/"@
                + lower_of(bill_type@)
                + "/"@
                + decimal(bill_number as int),
    {
        let mut path = String::from_str("/bill/");
        append_decimal(&mut path, congress as i64);
        path.append("/");
        path.append(lowercase(bill_type.as_str()).as_str());
        path.append("/");
        append_decimal(&mut path, bill_number as i64);
        self.client.get(path.as_str(), None)
    }

    /// Requests the list of actions on a specified bill.
    ///
    /// The answer decodes as [`crate::bills::ActionsResponse`].
    pub fn get_bill_actions(
        &self,
        congress: i32,
        bill_type: String,
        bill_number: i32,
        format: Option<String>,
        offset: Option<i32>,
        limit: Option<i32>,
    ) -> (r: Request)
        ensures
            self.is_request(
                r,
                "/bill/"@
                    + decimal(congress as int)
                    + "/"@
                    + lowered(bill_type@)
                    + "/"@
                    + decimal(bill_number as int)
                    + "/actions"@,
                text_param("format"@, format)
                    + int_param("offset"@, offset)
                    + int_param("limit"@, limit),
            ),
            r.path@ == "/bill/"@
                + decimal(congress as int)
                + "/"@
                + lower_of(bill_type@)
                + "/"@
                + decimal(bill_number as int)
                + "/actions"@,
    {
        let mut params: Vec<(String, String)> = Vec::new();
        push_text(&mut params, "format", format);
        push_int(&mut params, "offset", offset);
        push_int(&mut params, "limit", limit);
        proof {
            assert(query_view(params@) =~= text_param("format"@, format)
                + int_param("offset"@, offset)
                + int_param("limit"@, limit));
        }
        let mut path = String::from_str("/bill/");
        append_decimal(&mut path, congress as i64);
        path.append("/");
        path.append(lowercase(bill_type.as_str()).as_str());
        path.append("/");
        append_decimal(&mut path, bill_number as i64);
        path.append("/actions");
        self.client.get(path.as_str(), Some(params))
    }

    /// Requests the list of amendments to a specified bill.
    ///
    /// The answer decodes as [`crate::bills::AmendmentsResponse`].
    pub fn get_bill_amendments(
        &self,
        congress: i32,
        bill_type: String,
        bill_number: i32,
        format: Option<String>,
        offset: Option<i32>,
        limit: Option<i32>,
    ) -> (r: Request)
        ensures
            self.is_request(
                r,
                "/bill/"@
                    + decimal(congress as int)
                    + "/"@
                    + lowered(bill_type@)
                    + "/"@
                    + decimal(bill_number as int)
                    + "/amendments"@,
                text_param("format"@, format)
                    + int_param("offset"@, offset)
                    + int_param("limit"@, limit),
            ),
            r.path@ == "/bill/"@
                + decimal(congress as int)
                + "/"@
                + lower_of(bill_type@)
                + "/"@
                + decimal(bill_number as int)
                + "/amendments"@,
    {
        let mut params: Vec<(String, String)> = Vec::new();
        push_text(&mut params, "format", format);
        push_int(&mut params, "offset", offset);
        push_int(&mut params, "limit", limit);
        proof {
            assert(query_view(params@) =~= text_param("format"@, format)
                + int_param("offset"@, offset)
                + int_param("limit"@, limit));
        }
        let mut path = String::from_str("/bill/");
        append_decimal(&mut path, congress as i64);
        path.append("/");
        path.append(lowercase(bill_type.as_str()).as_str());
        path.append("/");
        append_decimal(&mut path, bill_number as i64);
        path.append("/amendments");
        self.client.get(path.as_str(), Some(params))
    }

    /// Requests the list of committees associated with a specified bill.
    ///
    /// The answer decodes as [`crate::bills::CommitteesResponse`].
    pub fn get_bill_committees(
        &self,
        congress: i32,
        bill_type: String,
        bill_number: i32,
        format: Option<String>,
        offset: Option<i32>,
        limit: Option<i32>,
    ) -> (r: Request)
        ensures
            self.is_request(
                r,
                "/bill/"@
                    + decimal(congress as int)
                    + "/"@
                    + lowered(bill_type@)
                    + "/"@
                    + decimal(bill_number as int)
                    + "/committees"@,
                text_param("format"@, format)
                    + int_param("offset"@, offset)
                    + int_param("limit"@, limit),
            ),
            r.path@ == "/bill/"@
                + decimal(congress as int)
                + "/"@
                + lower_of(bill_type@)
                + "/"@
                + decimal(bill_number as int)
                + "/committees"@,
    {
        let mut params: Vec<(String, String)> = Vec::new();
        push_text(&mut params, "format", format);
        push_int(&mut params, "offset", offset);
        push_int(&mut params, "limit", limit);
        proof {
            assert(query_view(params@) =~= text_param("format"@, format)
                + int_param("offset"@, offset)
                + int_param("limit"@, limit));
        }
        let mut path = String::from_str("/bill/");
        append_decimal(&mut path, congress as i64);
        path.append("/");
        path.append(lowercase(bill_type.as_str()).as_str());
        path.append("/");
        append_decimal(&mut path, bill_number as i64);
        path.append("/committees");
        self.client.get(path.as_str(), Some(params))
    }

    /// Requests the list of cosponsors on a specified bill.
    ///
    /// The answer decodes as [`crate::bills::CosponsorsResponse`].
    pub fn get_bill_cosponsors(
        &self,
        congress: i32,
        bill_type: String,
        bill_number: i32,
        format: Option<String>,
        offset: Option<i32>,
        limit: Option<i32>,
    ) -> (r: Request)
        ensures
            self.is_request(
                r,
                "/bill/"@
                    + decimal(congress as int)
                    + "/"@
                    + lowered(bill_type@)
                    + "/"@
                    + decimal(bill_number as int)
                    + "/cosponsors"@,
                text_param("format"@, format)
                    + int_param("offset"@, offset)
                    + int_param("limit"@, limit),
            ),
            r.path@ == "/bill/"@
                + decimal(congress as int)
                + "/"@
                + lower_of(bill_type@)
                + "/"@
                + decimal(bill_number as int)
                + "/cosponsors"@,
    {
        let mut params: Vec<(String, String)> = Vec::new();
        push_text(&mut params, "format", format);
        push_int(&mut params, "offset", offset);
        push_int(&mut params, "limit", limit);
        proof {
            assert(query_view(params@) =~= text_param("format"@, format)
                + int_param("offset"@, offset)
                + int_param("limit"@, limit));
        }
        let mut path = String::from_str("/bill/");
        append_decimal(&mut path, congress as i64);
        path.append("/");
        path.append(lowercase(bill_type.as_str()).as_str());
        path.append("/");
        append_decimal(&mut path, bill_number as i64);
        path.append("/cosponsors");
        self.client.get(path.as_str(), Some(params))
    }

    /// Requests the list of related bills to a specified bill.
    ///
    /// The answer decodes as [`crate::bills::RelatedBillsResponse`].
    pub fn get_related_bills(
        &self,
        congress: i32,
        bill_type: String,
        bill_number: i32,
        format: Option<String>,
        offset: Option<i32>,
        limit: Option<i32>,
    ) -> (r: Request)
        ensures
            self.is_request(
                r,
                "/bill/"@
                    + decimal(congress as int)
                    + "/"@
                    + lowered(bill_type@)
                    + "/"@
                    + decimal(bill_number as int)
                    + "/relatedbills"@,
                text_param("format"@, format)
                    + int_param("offset"@, offset)
                    + int_param("limit"@, limit),
            ),
            r.path@ == "/bill/"@
                + decimal(congress as int)
                + "/"@
                + lower_of(bill_type@)
                + "/"@
                + decimal(bill_number as int)
                + "/relatedbills"@,
    {
        let mut params: Vec<(String, String)> = Vec::new();
        push_text(&mut params, "format", format);
        push_int(&mut params, "offset", offset);
        push_int(&mut params, "limit", limit);
        proof {
            assert(query_view(params@) =~= text_param("format"@, format)
                + int_param("offset"@, offset)
                + int_param("limit"@, limit));
        }
        let mut path = String::from_str("/bill/");
        append_decimal(&mut path, congress as i64);
        path.append("/");
        path.append(lowercase(bill_type.as_str()).as_str());
        path.append("/");
        append_decimal(&mut path, bill_number as i64);
        path.append("/relatedbills");
        self.client.get(path.as_str(), Some(params))
    }

    /// Requests the list of legislative subjects on a specified bill.
    ///
    /// The answer decodes as [`crate::bills::SubjectsResponse`].
    pub fn get_bill_subjects(
        &self,
        congress: i32,
        bill_type: String,
        bill_number: i32,
        format: Option<String>,
        offset: Option<i32>,
        limit: Option<i32>,
    ) -> (r: Request)
        ensures
            self.is_request(
                r,
                "/bill/"@
                    + decimal(congress as int)
                    + "/"@
                    + lowered(bill_type@)
                    + "/"@
                    + decimal(bill_number as int)
                    + "/subjects"@,
                text_param("format"@, format)
                    + int_param("offset"@, offset)
                    + int_param("limit"@, limit),
            ),
            r.path@ == "/bill/"@
                + decimal(congress as int)
                + "/"@
                + lower_of(bill_type@)
                + "/"@
                + decimal(bill_number as int)
                + "/subjects"@,
    {
        let mut params: Vec<(String, String)> = Vec::new();
        push_text(&mut params, "format", format);
        push_int(&mut params, "offset", offset);
        push_int(&mut params, "limit", limit);
        proof {
            assert(query_view(params@) =~= text_param("format"@, format)
                + int_param("offset"@, offset)
                + int_param("limit"@, limit));
        }
        let mut path = String::from_str("/bill/");
        append_decimal(&mut path, congress as i64);
        path.append("/");
        path.append(lowercase(bill_type.as_str()).as_str());
        path.append("/");
        append_decimal(&mut path, bill_number as i64);
        path.append("/subjects");
        self.client.get(path.as_str(), Some(params))
    }

    /// Requests the list of summaries for a specified bill.
    ///
    /// The answer decodes as [`crate::bills::SummariesResponse`].
    pub fn get_bill_summaries(
        &self,
        congress: i32,
        bill_type: String,
        bill_number: i32,
        format: Option<String>,
        offset: Option<i32>,
        limit: Option<i32>,
    ) -> (r: Request)
        ensures
            self.is_request(
                r,
                "/bill/"@
                    + decimal(congress as int)
                    + "/"@
                    + lowered(bill_type@)
                    + "/"@
                    + decimal(bill_number as int)
                    + "/summaries"@,
                text_param("format"@, format)
                    + int_param("offset"@, offset)
                    + int_param("limit"@, limit),
            ),
            r.path@ == "/bill/"@
                + decimal(congress as int)
                + "/"@
                + lower_of(bill_type@)
                + "/"@
                + decimal(bill_number as int)
                + "/summaries"@,
    {
        let mut params: Vec<(String, String)> = Vec::new();
        push_text(&mut params, "format", format);
        push_int(&mut params, "offset", offset);
        push_int(&mut params, "limit", limit);
        proof {
            assert(query_view(params@) =~= text_param("format"@, format)
                + int_param("offset"@, offset)
                + int_param("limit"@, limit));
        }
        let mut path = String::from_str("/bill/");
        append_decimal(&mut path, congress as i64);
        path.append("/");
        path.append(lowercase(bill_type.as_str()).as_str());
        path.append("/");
        append_decimal(&mut path, bill_number as i64);
        path.append("/summaries");
        self.client.get(path.as_str(), Some(params))
    }

    /// Requests the list of text versions for a specified bill.
    ///
    /// The answer decodes as [`crate::bills::TextVersionsResponse`].
    pub fn get_bill_text(
        &self,
        congress: i32,
        bill_type: String,
        bill_number: i32,
        format: Option<String>,
        offset: Option<i32>,
        limit: Option<i32>,
    ) -> (r: Request)
        ensures
            self.is_request(
                r,
                "/bill/"@
                    + decimal(congress as int)
                    + "/"@
                    + lowered(bill_type@)
                    + "/"@
                    + decimal(bill_number as int)
                    + "/text"@,
                text_param("format"@, format)
                    + int_param("offset"@, offset)
                    + int_param("limit"@, limit),
            ),
            r.path@ == "/bill/"@
                + decimal(congress as int)
                + "/"@
                + lower_of(bill_type@)
                + "/"@
                + decimal(bill_number as int)
                + "/text"@,
    {
        let mut params: Vec<(String, String)> = Vec::new();
        push_text(&mut params, "format", format);
        push_int(&mut params, "offset", offset);
        push_int(&mut params, "limit", limit);
        proof {
            assert(query_view(params@) =~= text_param("format"@, format)
                + int_param("offset"@, offset)
                + int_param("limit"@, limit));
        }
        let mut path = String::from_str("/bill/");
        append_decimal(&mut path, congress as i64);
        path.append("/");
        path.append(lowercase(bill_type.as_str()).as_str());
        path.append("/");
        append_decimal(&mut path, bill_number as i64);
        path.append("/text");
        self.client.get(path.as_str(), Some(params))
    }

    /// Requests the list of titles for a specified bill.
    ///
    /// The answer decodes as [`crate::bills::TitlesResponse`].
    pub fn get_bill_titles(
        &self,
        congress: i32,
        bill_type: String,
        bill_number: i32,
        format: Option<String>,
        offset: Option<i32>,
        limit: Option<i32>,
    ) -> (r: Request)
        ensures
            self.is_request(
                r,
                "/bill/"@
                    + decimal(congress as int)
                    + "/"@
                    + lowered(bill_type@)
                    + "/"@
                    + decimal(bill_number as int)
                    + "/titles"@,
                text_param("format"@, format)
                    + int_param("offset"@, offset)
                    + int_param("limit"@, limit),
            ),
            r.path@ == "/bill/"@
                + decimal(congress as int)
                + "/"@
                + lower_of(bill_type@)
                + "/"@
                + decimal(bill_number as int)
                + "/titles"@,
    {
        let mut params: Vec<(String, String)> = Vec::new();
        push_text(&mut params, "format", format);
        push_int(&mut params, "offset", offset);
        push_int(&mut params, "limit", limit);
        proof {
            assert(query_view(params@) =~= text_param("format"@, format)
                + int_param("offset"@, offset)
                + int_param("limit"@, limit));
        }
        let mut path = String::from_str("/bill/");
        append_decimal(&mut path, congress as i64);
        path.append("/");
        path.append(lowercase(bill_type.as_str()).as_str());
        path.append("/");
        append_decimal(&mut path, bill_number as i64);
        path.append("/titles");
        self.client.get(path.as_str(), Some(params))
    }

    /// Requests a list of amendments sorted by date of latest action.
    ///
    /// The answer decodes as [`crate::bills::AmendmentsResponse`].
    pub fn list_amendments(
        &self,
        format: Option<String>,
        offset: Option<i32>,
        limit: Option<i32>,
        from_date_time: Option<String>,
        to_date_time: Option<String>,
    ) -> (r: Request)
        ensures
            self.is_request(
                r,
                "/amendment"@,
                text_param("format"@, format)
                    + int_param("offset"@, offset)
                    + int_param("limit"@, limit)
                    + text_param("fromDateTime"@, from_date_time)
                    + text_param("toDateTime"@, to_date_time),
            ),
    {
        let mut params: Vec<(String, String)> = Vec::new();
        push_text(&mut params, "format", format);
        push_int(&mut params, "offset", offset);
        push_int(&mut params, "limit", limit);
        push_text(&mut params, "fromDateTime", from_date_time);
        push_text(&mut params, "toDateTime", to_date_time);
        proof {
            assert(query_view(params@) =~= text_param("format"@, format)
                + int_param("offset"@, offset)
                + int_param("limit"@, limit)
                + text_param("fromDateTime"@, from_date_time)
                + text_param("toDateTime"@, to_date_time));
        }
        self.client.get("/amendment", Some(params))
    }

    /// Requests amendments filtered by congress.
    ///
    /// The answer decodes as [`crate::bills::AmendmentsResponse`].
    pub fn list_amendments_by_congress(
        &self,
        congress: i32,
        format: Option<String>,
        offset: Option<i32>,
        limit: Option<i32>,
        from_date_time: Option<String>,
        to_date_time: Option<String>,
    ) -> (r: Request)
        ensures
            self.is_request(
                r,
                "/amendment/"@ + decimal(congress as int),
                text_param("format"@, format)
                    + int_param("offset"@, offset)
                    + int_param("limit"@, limit)
                    + text_param("fromDateTime"@, from_date_time)
                    + text_param("toDateTime"@, to_date_time),
            ),
    {
        let mut params: Vec<(String, String)> = Vec::new();
        push_text(&mut params, "format", format);
        push_int(&mut params, "offset", offset);
        push_int(&mut params, "limit", limit);
        push_text(&mut params, "fromDateTime", from_date_time);
        push_text(&mut params, "toDateTime", to_date_time);
        proof {
            assert(query_view(params@) =~= text_param("format"@, format)
                + int_param("offset"@, offset)
                + int_param("limit"@, limit)
                + text_param("fromDateTime"@, from_date_time)
                + text_param("toDateTime"@, to_date_time));
        }
        let mut path = String::from_str("/amendment/");
        append_decimal(&mut path, congress as i64);
        self.client.get(path.as_str(), Some(params))
    }

    /// Requests a list of congressional members.
    ///
    /// The answer decodes as [`crate::members::MembersResponse`].
    pub fn list_members(
        &self,
        format: Option<String>,
        offset: Option<i32>,
        limit: Option<i32>,
        from_date_time: Option<String>,
        to_date_time: Option<String>,
        current_member: Option<bool>,
    ) -> (r: Request)
        ensures
            self.is_request(
                r,
                "/member"@,
                text_param("format"@, format)
                    + int_param("offset"@, offset)
                    + int_param("limit"@, limit)
                    + text_param("fromDateTime"@, from_date_time)
                    + text_param("toDateTime"@, to_date_time)
                    + flag_param("currentMember"@, current_member),
            ),
    {
        let mut params: Vec<(String, String)> = Vec::new();
        push_text(&mut params, "format", format);
        push_int(&mut params, "offset", offset);
        push_int(&mut params, "limit", limit);
        push_text(&mut params, "fromDateTime", from_date_time);
        push_text(&mut params, "toDateTime", to_date_time);
        push_flag(&mut params, "currentMember", current_member);
        proof {
            assert(query_view(params@) =~= text_param("format"@, format)
                + int_param("offset"@, offset)
                + int_param("limit"@, limit)
                + text_param("fromDateTime"@, from_date_time)
                + text_param("toDateTime"@, to_date_time)
                + flag_param("currentMember"@, current_member));
        }
        self.client.get("/member", Some(params))
    }

    /// Requests detailed information for a specified congressional member.
    ///
    /// The answer decodes as [`crate::members::MemberResponse`].
    pub fn get_member(&self, bioguide_id: String) -> (r: Request)
        ensures
            self.is_request(r, "/member/"@ + bioguide_id@, seq![]),
    {
        let mut path = String::from_str("/member/");
        path.append(bioguide_id.as_str());
        self.client.get(path.as_str(), None)
    }

    /// Requests the list of members by congress.
    ///
    /// The answer decodes as [`crate::members::MembersResponse`].
    pub fn list_members_by_congress(
        &self,
        congress: i32,
        format: Option<String>,
        offset: Option<i32>,
        limit: Option<i32>,
        current_member: Option<bool>,
    ) -> (r: Request)
        ensures
            self.is_request(
                r,
                "/member/congress/"@ + decimal(congress as int),
                text_param("format"@, format)
                    + int_param("offset"@, offset)
                    + int_param("limit"@, limit)
                    + flag_param("currentMember"@, current_member),
            ),
    {
        let mut params: Vec<(String, String)> = Vec::new();
        push_text(&mut params, "format", format);
        push_int(&mut params, "offset", offset);
        push_int(&mut params, "limit", limit);
        push_flag(&mut params, "currentMember", current_member);
        proof {
            assert(query_view(params@) =~= text_param("format"@, format)
                + int_param("offset"@, offset)
                + int_param("limit"@, limit)
                + flag_param("currentMember"@, current_member));
        }
        let mut path = String::from_str("/member/congress/");
        append_decimal(&mut path, congress as i64);
        self.client.get(path.as_str(), Some(params))
    }

    /// Requests legislation sponsored by a specified member.
    ///
    /// The answer decodes as [`crate::members::SponsoredLegislationResponse`].
    pub fn get_member_sponsored_legislation(
        &self,
        bioguide_id: String,
        format: Option<String>,
        offset: Option<i32>,
        limit: Option<i32>,
    ) -> (r: Request)
        ensures
            self.is_request(
                r,
                "/member/"@ + bioguide_id@ + "/sponsored-legislation"@,
                text_param("format"@, format)
                    + int_param("offset"@, offset)
                    + int_param("limit"@, limit),
            ),
    {
        let mut params: Vec<(String, String)> = Vec::new();
        push_text(&mut params, "format", format);
        push_int(&mut params, "offset", offset);
        push_int(&mut params, "limit", limit);
        proof {
            assert(query_view(params@) =~= text_param("format"@, format)
                + int_param("offset"@, offset)
                + int_param("limit"@, limit));
        }
        let mut path = String::from_str("/member/");
        path.append(bioguide_id.as_str());
        path.append("/sponsored-legislation");
        self.client.get(path.as_str(), Some(params))
    }

    /// Requests legislation cosponsored by a specified member.
    ///
    /// The answer decodes as [`crate::members::CosponsoredLegislationResponse`].
    pub fn get_member_cosponsored_legislation(
        &self,
        bioguide_id: String,
        format: Option<String>,
        offset: Option<i32>,
        limit: Option<i32>,
    ) -> (r: Request)
        ensures
            self.is_request(
                r,
                "/member/"@ + bioguide_id@ + "/cosponsored-legislation"@,
                text_param("format"@, format)
                    + int_param("offset"@, offset)
                    + int_param("limit"@, limit),
            ),
    {
        let mut params: Vec<(String, String)> = Vec::new();
        push_text(&mut params, "format", format);
        push_int(&mut params, "offset", offset);
        push_int(&mut params, "limit", limit);
        proof {
            assert(query_view(params@) =~= text_param("format"@, format)
                + int_param("offset"@, offset)
                + int_param("limit"@, limit));
        }
        let mut path = String::from_str("/member/");
        path.append(bioguide_id.as_str());
        path.append("/cosponsored-legislation");
        self.client.get(path.as_str(), Some(params))
    }

    /// Requests the list of members by state.
    ///
    /// The answer decodes as [`crate::members::MembersResponse`].
    pub fn list_members_by_state(
        &self,
        state_code: String,
        format: Option<String>,
        limit: Option<i32>,
        current_member: Option<bool>,
    ) -> (r: Request)
        ensures
            self.is_request(
                r,
                "/member/"@ + state_code@,
                text_param("format"@, format)
                    + int_param("limit"@, limit)
                    + flag_param("currentMember"@, current_member),
            ),
    {
        let mut params: Vec<(String, String)> = Vec::new();
        push_text(&mut params, "format", format);
        push_int(&mut params, "limit", limit);
        push_flag(&mut params, "currentMember", current_member);
        proof {
            assert(query_view(params@) =~= text_param("format"@, format)
                + int_param("limit"@, limit)
                + flag_param("currentMember"@, current_member));
        }
        let mut path = String::from_str("/member/");
        path.append(state_code.as_str());
        self.client.get(path.as_str(), Some(params))
    }

    /// Requests the list of members by state and district.
    ///
    /// The answer decodes as [`crate::members::MembersResponse`].
    pub fn list_members_by_state_district(
        &self,
        state_code: String,
        district: i32,
        format: Option<String>,
        current_member: Option<bool>,
    ) -> (r: Request)
        ensures
            self.is_request(
                r,
                "/member/"@ + state_code@ + "/"@ + decimal(district as int),
                text_param("format"@, format) + flag_param("currentMember"@, current_member),
            ),
    {
        let mut params: Vec<(String, String)> = Vec::new();
        push_text(&mut params, "format", format);
        push_flag(&mut params, "currentMember", current_member);
        proof {
            assert(query_view(params@) =~= text_param("format"@, format)
                + flag_param("currentMember"@, current_member));
        }
        let mut path = String::from_str("/member/");
        path.append(state_code.as_str());
        path.append("/");
        append_decimal(&mut path, district as i64);
        self.client.get(path.as_str(), Some(params))
    }

    /// Requests a list of committees.
    ///
    /// The answer decodes as [`crate::committees::CommitteesResponse`].
    pub fn list_committees(
        &self,
        format: Option<String>,
        offset: Option<i32>,
        limit: Option<i32>,
    ) -> (r: Request)
        ensures
            self.is_request(
                r,
                "/committee"@,
                text_param("format"@, format)
                    + int_param("offset"@, offset)
                    + int_param("limit"@, limit),
            ),
    {
        let mut params: Vec<(String, String)> = Vec::new();
        push_text(&mut params, "format", format);
        push_int(&mut params, "offset", offset);
        push_int(&mut params, "limit", limit);
        proof {
            assert(query_view(params@) =~= text_param("format"@, format)
                + int_param("offset"@, offset)
                + int_param("limit"@, limit));
        }
        self.client.get("/committee", Some(params))
    }

    /// Requests a list of congresses and congressional sessions.
    ///
    /// The answer decodes as [`crate::sessions::CongressesResponse`].
    pub fn list_congresses(
        &self,
        format: Option<String>,
        offset: Option<i32>,
        limit: Option<i32>,
    ) -> (r: Request)
        ensures
            self.is_request(
                r,
                "/congress"@,
                text_param("format"@, format)
                    + int_param("offset"@, offset)
                    + int_param("limit"@, limit),
            ),
    {
        let mut params: Vec<(String, String)> = Vec::new();
        push_text(&mut params, "format", format);
        push_int(&mut params, "offset", offset);
        push_int(&mut params, "limit", limit);
        proof {
            assert(query_view(params@) =~= text_param("format"@, format)
                + int_param("offset"@, offset)
                + int_param("limit"@, limit));
        }
        self.client.get("/congress", Some(params))
    }

    /// Requests information about a specific congress.
    ///
    /// The answer decodes as [`crate::sessions::CongressResponse`].
    pub fn get_congress(&self, congress: i32, format: Option<String>) -> (r: Request)
        ensures
            self.is_request(
                r,
                "/congress/"@ + decimal(congress as int),
                text_param("format"@, format),
            ),
    {
        let mut params: Vec<(String, String)> = Vec::new();
        push_text(&mut params, "format", format);
        proof {
            assert(query_view(params@) =~= text_param("format"@, format));
        }
        let mut path = String::from_str("/congress/");
        append_decimal(&mut path, congress as i64);
        self.client.get(path.as_str(), Some(params))
    }

    /// Requests information about the current congress.
    ///
    /// The answer decodes as [`crate::sessions::CongressResponse`].
    pub fn get_current_congress(&self, format: Option<String>) -> (r: Request)
        ensures
            self.is_request(r, "/congress/current"@, text_param("format"@, format)),
    {
        let mut params: Vec<(String, String)> = Vec::new();
        push_text(&mut params, "format", format);
        proof {
            assert(query_view(params@) =~= text_param("format"@, format));
        }
        self.client.get("/congress/current", Some(params))
    }

    /// Requests a list of house votes (a beta route).
    ///
    /// The answer decodes as [`crate::house_votes::HouseVotesResponse`].
    pub fn list_house_votes(
        &self,
        offset: Option<i32>,
        limit: Option<i32>,
        from_date: Option<String>,
        to_date: Option<String>,
        sort: Option<String>,
        format: Option<String>,
    ) -> (r: Request)
        ensures
            self.is_request(
                r,
                "/house-vote"@,
                int_param("offset"@, offset)
                    + int_param("limit"@, limit)
                    + text_param("fromDateTime"@, from_date)
                    + text_param("toDateTime"@, to_date)
                    + text_param("sort"@, sort)
                    + text_param("format"@, format),
            ),
    {
        let mut params: Vec<(String, String)> = Vec::new();
        push_int(&mut params, "offset", offset);
        push_int(&mut params, "limit", limit);
        push_text(&mut params, "fromDateTime", from_date);
        push_text(&mut params, "toDateTime", to_date);
        push_text(&mut params, "sort", sort);
        push_text(&mut params, "format", format);
        proof {
            assert(query_view(params@) =~= int_param("offset"@, offset)
                + int_param("limit"@, limit)
                + text_param("fromDateTime"@, from_date)
                + text_param("toDateTime"@, to_date)
                + text_param("sort"@, sort)
                + text_param("format"@, format));
        }
        self.client.get("/house-vote", Some(params))
    }

    /// Requests house votes for a specific congress (a beta route).
    ///
    /// The answer decodes as [`crate::house_votes::HouseVotesResponse`].
    pub fn list_house_votes_by_congress(
        &self,
        congress: i32,
        offset: Option<i32>,
        limit: Option<i32>,
        from_date: Option<String>,
        to_date: Option<String>,
        sort: Option<String>,
        format: Option<String>,
    ) -> (r: Request)
        ensures
            self.is_request(
                r,
                "/house-vote/"@ + decimal(congress as int),
                int_param("offset"@, offset)
                    + int_param("limit"@, limit)
                    + text_param("fromDateTime"@, from_date)
                    + text_param("toDateTime"@, to_date)
                    + text_param("sort"@, sort)
                    + text_param("format"@, format),
            ),
    {
        let mut params: Vec<(String, String)> = Vec::new();
        push_int(&mut params, "offset", offset);
        push_int(&mut params, "limit", limit);
        push_text(&mut params, "fromDateTime", from_date);
        push_text(&mut params, "toDateTime", to_date);
        push_text(&mut params, "sort", sort);
        push_text(&mut params, "format", format);
        proof {
            assert(query_view(params@) =~= int_param("offset"@, offset)
                + int_param("limit"@, limit)
                + text_param("fromDateTime"@, from_date)
                + text_param("toDateTime"@, to_date)
                + text_param("sort"@, sort)
                + text_param("format"@, format));
        }
        let mut path = String::from_str("/house-vote/");
        append_decimal(&mut path, congress as i64);
        self.client.get(path.as_str(), Some(params))
    }

    /// Requests house votes for a specific congress and session (a beta route).
    ///
    /// The answer decodes as [`crate::house_votes::HouseVotesResponse`].
    pub fn list_house_votes_by_session(
        &self,
        congress: i32,
        session: i32,
        offset: Option<i32>,
        limit: Option<i32>,
        from_date: Option<String>,
        to_date: Option<String>,
        sort: Option<String>,
        format: Option<String>,
    ) -> (r: Request)
        ensures
            self.is_request(
                r,
                "/house-vote/"@ + decimal(congress as int) + "/"@ + decimal(session as int),
                int_param("offset"@, offset)
                    + int_param("limit"@, limit)
                    + text_param("fromDateTime"@, from_date)
                    + text_param("toDateTime"@, to_date)
                    + text_param("sort"@, sort)
                    + text_param("format"@, format),
            ),
    {
        let mut params: Vec<(String, String)> = Vec::new();
        push_int(&mut params, "offset", offset);
        push_int(&mut params, "limit", limit);
        push_text(&mut params, "fromDateTime", from_date);
        push_text(&mut params, "toDateTime", to_date);
        push_text(&mut params, "sort", sort);
        push_text(&mut params, "format", format);
        proof {
            assert(query_view(params@) =~= int_param("offset"@, offset)
                + int_param("limit"@, limit)
                + text_param("fromDateTime"@, from_date)
                + text_param("toDateTime"@, to_date)
                + text_param("sort"@, sort)
                + text_param("format"@, format));
        }
        let mut path = String::from_str("/house-vote/");
        append_decimal(&mut path, congress as i64);
        path.append("/");
        append_decimal(&mut path, session as i64);
        self.client.get(path.as_str(), Some(params))
    }

    /// Requests detailed information about a specific house vote (a beta route).
    ///
    /// The answer decodes as [`crate::house_votes::HouseVoteDetailResponse`].
    pub fn get_house_vote(
        &self,
        congress: i32,
        session: i32,
        vote_number: i32,
        format: Option<String>,
    ) -> (r: Request)
        ensures
            self.is_request(
                r,
                "/house-vote/"@
                    + decimal(congress as int)
                    + "/"@
                    + decimal(session as int)
                    + "/"@
                    + decimal(vote_number as int),
                text_param("format"@, format),
            ),
    {
        let mut params: Vec<(String, String)> = Vec::new();
        push_text(&mut params, "format", format);
        proof {
            assert(query_view(params@) =~= text_param("format"@, format));
        }
        let mut path = String::from_str("/house-vote/");
        append_decimal(&mut path, congress as i64);
        path.append("/");
        append_decimal(&mut path, session as i64);
        path.append("/");
        append_decimal(&mut path, vote_number as i64);
        self.client.get(path.as_str(), Some(params))
    }

    /// Requests how members voted on a specific house vote (a beta route).
    ///
    /// The answer decodes as [`crate::house_votes::HouseVoteMembersResponse`].
    pub fn get_house_vote_members(
        &self,
        congress: i32,
        session: i32,
        vote_number: i32,
        offset: Option<i32>,
        limit: Option<i32>,
        format: Option<String>,
    ) -> (r: Request)
        ensures
            self.is_request(
                r,
                "/house-vote/"@
                    + decimal(congress as int)
                    + "/"@
                    + decimal(session as int)
                    + "/"@
                    + decimal(vote_number as int)
                    + "/members"@,
                int_param("offset"@, offset)
                    + int_param("limit"@, limit)
                    + text_param("format"@, format),
            ),
    {
        let mut params: Vec<(String, String)> = Vec::new();
        push_int(&mut params, "offset", offset);
        push_int(&mut params, "limit", limit);
        push_text(&mut params, "format", format);
        proof {
            assert(query_view(params@) =~= int_param("offset"@, offset)
                + int_param("limit"@, limit)
                + text_param("format"@, format));
        }
        let mut path = String::from_str("/house-vote/");
        append_decimal(&mut path, congress as i64);
        path.append("/");
        append_decimal(&mut path, session as i64);
        path.append("/");
        append_decimal(&mut path, vote_number as i64);
        path.append("/members");
        self.client.get(path.as_str(), Some(params))
    }

    /// Requests committees filtered by chamber.
    ///
    /// The answer decodes as [`crate::committees::CommitteesResponse`].
    pub fn list_committees_by_chamber(
        &self,
        chamber: String,
        offset: Option<i32>,
        limit: Option<i32>,
        format: Option<String>,
    ) -> (r: Request)
        ensures
            self.is_request(
                r,
                "/committee/"@ + lowered(chamber@),
                int_param("offset"@, offset)
                    + int_param("limit"@, limit)
                    + text_param("format"@, format),
            ),
            r.path@ == "/committee/"@ + lower_of(chamber@),
    {
        let mut params: Vec<(String, String)> = Vec::new();
        push_int(&mut params, "offset", offset);
        push_int(&mut params, "limit", limit);
        push_text(&mut params, "format", format);
        proof {
            assert(query_view(params@) =~= int_param("offset"@, offset)
                + int_param("limit"@, limit)
                + text_param("format"@, format));
        }
        let mut path = String::from_str("/committee/");
        path.append(lowercase(chamber.as_str()).as_str());
        self.client.get(path.as_str(), Some(params))
    }

    /// Requests committees filtered by congress.
    ///
    /// The answer decodes as [`crate::committees::CommitteesResponse`].
    pub fn list_committees_by_congress(
        &self,
        congress: i32,
        offset: Option<i32>,
        limit: Option<i32>,
        format: Option<String>,
    ) -> (r: Request)
        ensures
            self.is_request(
                r,
                "/committee/"@ + decimal(congress as int),
                int_param("offset"@, offset)
                    + int_param("limit"@, limit)
                    + text_param("format"@, format),
            ),
    {
        let mut params: Vec<(String, String)> = Vec::new();
        push_int(&mut params, "offset", offset);
        push_int(&mut params, "limit", limit);
        push_text(&mut params, "format", format);
        proof {
            assert(query_view(params@) =~= int_param("offset"@, offset)
                + int_param("limit"@, limit)
                + text_param("format"@, format));
        }
        let mut path = String::from_str("/committee/");
        append_decimal(&mut path, congress as i64);
        self.client.get(path.as_str(), Some(params))
    }

    /// Requests committees filtered by congress and chamber.
    ///
    /// The answer decodes as [`crate::committees::CommitteesResponse`].
    pub fn list_committees_by_congress_and_chamber(
        &self,
        congress: i32,
        chamber: String,
        offset: Option<i32>,
        limit: Option<i32>,
        format: Option<String>,
    ) -> (r: Request)
        ensures
            self.is_request(
                r,
                "/committee/"@ + decimal(congress as int) + "/"@ + lowered(chamber@),
                int_param("offset"@, offset)
                    + int_param("limit"@, limit)
                    + text_param("format"@, format),
            ),
            r.path@ == "/committee/"@ + decimal(congress as int) + "/"@ + lower_of(chamber@),
    {
        let mut params: Vec<(String, String)> = Vec::new();
        push_int(&mut params, "offset", offset);
        push_int(&mut params, "limit", limit);
        push_text(&mut params, "format", format);
        proof {
            assert(query_view(params@) =~= int_param("offset"@, offset)
                + int_param("limit"@, limit)
                + text_param("format"@, format));
        }
        let mut path = String::from_str("/committee/");
        append_decimal(&mut path, congress as i64);
        path.append("/");
        path.append(lowercase(chamber.as_str()).as_str());
        self.client.get(path.as_str(), Some(params))
    }

    /// Requests detailed information about a specific committee.
    ///
    /// The answer decodes as [`crate::committees::CommitteeDetailResponse`].
    pub fn get_committee(
        &self,
        chamber: String,
        committee_code: String,
        format: Option<String>,
    ) -> (r: Request)
        ensures
            self.is_request(
                r,
                "/committee/"@ + lowered(chamber@) + "/"@ + committee_code@,
                text_param("format"@, format),
            ),
            r.path@ == "/committee/"@ + lower_of(chamber@) + "/"@ + committee_code@,
    {
        let mut params: Vec<(String, String)> = Vec::new();
        push_text(&mut params, "format", format);
        proof {
            assert(query_view(params@) =~= text_param("format"@, format));
        }
        let mut path = String::from_str("/committee/");
        path.append(lowercase(chamber.as_str()).as_str());
        path.append("/");
        path.append(committee_code.as_str());
        self.client.get(path.as_str(), Some(params))
    }

    /// Requests bills associated with a committee.
    ///
    /// The answer decodes as [`crate::committees::CommitteeBillsResponse`].
    pub fn get_committee_bills(
        &self,
        chamber: String,
        committee_code: String,
        offset: Option<i32>,
        limit: Option<i32>,
        format: Option<String>,
    ) -> (r: Request)
        ensures
            self.is_request(
                r,
                "/committee/"@ + lowered(chamber@) + "/"@ + committee_code@ + "/bills"@,
                int_param("offset"@, offset)
                    + int_param("limit"@, limit)
                    + text_param("format"@, format),
            ),
            r.path@ == "/committee/"@ + lower_of(chamber@) + "/"@ + committee_code@ + "/bills"@,
    {
        let mut params: Vec<(String, String)> = Vec::new();
        push_int(&mut params, "offset", offset);
        push_int(&mut params, "limit", limit);
        push_text(&mut params, "format", format);
        proof {
            assert(query_view(params@) =~= int_param("offset"@, offset)
                + int_param("limit"@, limit)
                + text_param("format"@, format));
        }
        let mut path = String::from_str("/committee/");
        path.append(lowercase(chamber.as_str()).as_str());
        path.append("/");
        path.append(committee_code.as_str());
        path.append("/bills");
        self.client.get(path.as_str(), Some(params))
    }

    /// Requests a list of all committee reports.
    ///
    /// The answer decodes as [`crate::committees::CommitteeReportsResponse`].
    pub fn list_committee_reports(
        &self,
        offset: Option<i32>,
        limit: Option<i32>,
        from_date: Option<String>,
        to_date: Option<String>,
        sort: Option<String>,
        format: Option<String>,
    ) -> (r: Request)
        ensures
            self.is_request(
                r,
                "/committee-report"@,
                int_param("offset"@, offset)
                    + int_param("limit"@, limit)
                    + text_param("fromDateTime"@, from_date)
                    + text_param("toDateTime"@, to_date)
                    + text_param("sort"@, sort)
                    + text_param("format"@, format),
            ),
    {
        let mut params: Vec<(String, String)> = Vec::new();
        push_int(&mut params, "offset", offset);
        push_int(&mut params, "limit", limit);
        push_text(&mut params, "fromDateTime", from_date);
        push_text(&mut params, "toDateTime", to_date);
        push_text(&mut params, "sort", sort);
        push_text(&mut params, "format", format);
        proof {
            assert(query_view(params@) =~= int_param("offset"@, offset)
                + int_param("limit"@, limit)
                + text_param("fromDateTime"@, from_date)
                + text_param("toDateTime"@, to_date)
                + text_param("sort"@, sort)
                + text_param("format"@, format));
        }
        self.client.get("/committee-report", Some(params))
    }

    /// Requests committee reports filtered by congress.
    ///
    /// The answer decodes as [`crate::committees::CommitteeReportsResponse`].
    pub fn list_committee_reports_by_congress(
        &self,
        congress: i32,
        offset: Option<i32>,
        limit: Option<i32>,
        from_date: Option<String>,
        to_date: Option<String>,
        sort: Option<String>,
        format: Option<String>,
    ) -> (r: Request)
        ensures
            self.is_request(
                r,
                "/committee-report/"@ + decimal(congress as int),
                int_param("offset"@, offset)
                    + int_param("limit"@, limit)
                    + text_param("fromDateTime"@, from_date)
                    + text_param("toDateTime"@, to_date)
                    + text_param("sort"@, sort)
                    + text_param("format"@, format),
            ),
    {
        let mut params: Vec<(String, String)> = Vec::new();
        push_int(&mut params, "offset", offset);
        push_int(&mut params, "limit", limit);
        push_text(&mut params, "fromDateTime", from_date);
        push_text(&mut params, "toDateTime", to_date);
        push_text(&mut params, "sort", sort);
        push_text(&mut params, "format", format);
        proof {
            assert(query_view(params@) =~= int_param("offset"@, offset)
                + int_param("limit"@, limit)
                + text_param("fromDateTime"@, from_date)
                + text_param("toDateTime"@, to_date)
                + text_param("sort"@, sort)
                + text_param("format"@, format));
        }
        let mut path = String::from_str("/committee-report/");
        append_decimal(&mut path, congress as i64);
        self.client.get(path.as_str(), Some(params))
    }

    /// Requests committee reports filtered by congress and report type.
    ///
    /// The answer decodes as [`crate::committees::CommitteeReportsResponse`].
    pub fn list_committee_reports_by_type(
        &self,
        congress: i32,
        report_type: String,
        offset: Option<i32>,
        limit: Option<i32>,
        from_date: Option<String>,
        to_date: Option<String>,
        sort: Option<String>,
        format: Option<String>,
    ) -> (r: Request)
        ensures
            self.is_request(
                r,
                "/committee-report/"@ + decimal(congress as int) + "/"@ + report_type@,
                int_param("offset"@, offset)
                    + int_param("limit"@, limit)
                    + text_param("fromDateTime"@, from_date)
                    + text_param("toDateTime"@, to_date)
                    + text_param("sort"@, sort)
                    + text_param("format"@, format),
            ),
    {
        let mut params: Vec<(String, String)> = Vec::new();
        push_int(&mut params, "offset", offset);
        push_int(&mut params, "limit", limit);
        push_text(&mut params, "fromDateTime", from_date);
        push_text(&mut params, "toDateTime", to_date);
        push_text(&mut params, "sort", sort);
        push_text(&mut params, "format", format);
        proof {
            assert(query_view(params@) =~= int_param("offset"@, offset)
                + int_param("limit"@, limit)
                + text_param("fromDateTime"@, from_date)
                + text_param("toDateTime"@, to_date)
                + text_param("sort"@, sort)
                + text_param("format"@, format));
        }
        let mut path = String::from_str("/committee-report/");
        append_decimal(&mut path, congress as i64);
        path.append("/");
        path.append(report_type.as_str());
        self.client.get(path.as_str(), Some(params))
    }

    /// Requests detailed information about a specific committee report.
    ///
    /// The answer decodes as [`crate::committees::CommitteeReportDetailResponse`].
    pub fn get_committee_report(
        &self,
        congress: i32,
        report_type: String,
        report_number: i32,
        format: Option<String>,
    ) -> (r: Request)
        ensures
            self.is_request(
                r,
                "/committee-report/"@
                    + decimal(congress as int)
                    + "/"@
                    + report_type@
                    + "/"@
                    + decimal(report_number as int),
                text_param("format"@, format),
            ),
    {
        let mut params: Vec<(String, String)> = Vec::new();
        push_text(&mut params, "format", format);
        proof {
            assert(query_view(params@) =~= text_param("format"@, format));
        }
        let mut path = String::from_str("/committee-report/");
        append_decimal(&mut path, congress as i64);
        path.append("/");
        path.append(report_type.as_str());
        path.append("/");
        append_decimal(&mut path, report_number as i64);
        self.client.get(path.as_str(), Some(params))
    }

    /// Requests text formats available for a committee report.
    ///
    /// The answer decodes as [`crate::committees::CommitteeReportTextResponse`].
    pub fn get_committee_report_text(
        &self,
        congress: i32,
        report_type: String,
        report_number: i32,
        format: Option<String>,
    ) -> (r: Request)
        ensures
            self.is_request(
                r,
                "/committee-report/"@
                    + decimal(congress as int)
                    + "/"@
                    + report_type@
                    + "/"@
                    + decimal(report_number as int)
                    + "/text"@,
                text_param("format"@, format),
            ),
    {
        let mut params: Vec<(String, String)> = Vec::new();
        push_text(&mut params, "format", format);
        proof {
            assert(query_view(params@) =~= text_param("format"@, format));
        }
        let mut path = String::from_str("/committee-report/");
        append_decimal(&mut path, congress as i64);
        path.append("/");
        path.append(report_type.as_str());
        path.append("/");
        append_decimal(&mut path, report_number as i64);
        path.append("/text");
        self.client.get(path.as_str(), Some(params))
    }

    /// Requests a list of all committee prints.
    ///
    /// The answer decodes as [`crate::committees::CommitteePrintsResponse`].
    pub fn list_committee_prints(
        &self,
        offset: Option<i32>,
        limit: Option<i32>,
        from_date: Option<String>,
        to_date: Option<String>,
        sort: Option<String>,
        format: Option<String>,
    ) -> (r: Request)
        ensures
            self.is_request(
                r,
                "/committee-print"@,
                int_param("offset"@, offset)
                    + int_param("limit"@, limit)
                    + text_param("fromDateTime"@, from_date)
                    + text_param("toDateTime"@, to_date)
                    + text_param("sort"@, sort)
                    + text_param("format"@, format),
            ),
    {
        let mut params: Vec<(String, String)> = Vec::new();
        push_int(&mut params, "offset", offset);
        push_int(&mut params, "limit", limit);
        push_text(&mut params, "fromDateTime", from_date);
        push_text(&mut params, "toDateTime", to_date);
        push_text(&mut params, "sort", sort);
        push_text(&mut params, "format", format);
        proof {
            assert(query_view(params@) =~= int_param("offset"@, offset)
                + int_param("limit"@, limit)
                + text_param("fromDateTime"@, from_date)
                + text_param("toDateTime"@, to_date)
                + text_param("sort"@, sort)
                + text_param("format"@, format));
        }
        self.client.get("/committee-print", Some(params))
    }

    /// Requests committee prints filtered by congress.
    ///
    /// The answer decodes as [`crate::committees::CommitteePrintsResponse`].
    pub fn list_committee_prints_by_congress(
        &self,
        congress: i32,
        offset: Option<i32>,
        limit: Option<i32>,
        from_date: Option<String>,
        to_date: Option<String>,
        sort: Option<String>,
        format: Option<String>,
    ) -> (r: Request)
        ensures
            self.is_request(
                r,
                "/committee-print/"@ + decimal(congress as int),
                int_param("offset"@, offset)
                    + int_param("limit"@, limit)
                    + text_param("fromDateTime"@, from_date)
                    + text_param("toDateTime"@, to_date)
                    + text_param("sort"@, sort)
                    + text_param("format"@, format),
            ),
    {
        let mut params: Vec<(String, String)> = Vec::new();
        push_int(&mut params, "offset", offset);
        push_int(&mut params, "limit", limit);
        push_text(&mut params, "fromDateTime", from_date);
        push_text(&mut params, "toDateTime", to_date);
        push_text(&mut params, "sort", sort);
        push_text(&mut params, "format", format);
        proof {
            assert(query_view(params@) =~= int_param("offset"@, offset)
                + int_param("limit"@, limit)
                + text_param("fromDateTime"@, from_date)
                + text_param("toDateTime"@, to_date)
                + text_param("sort"@, sort)
                + text_param("format"@, format));
        }
        let mut path = String::from_str("/committee-print/");
        append_decimal(&mut path, congress as i64);
        self.client.get(path.as_str(), Some(params))
    }

    /// Requests committee prints filtered by congress and chamber.
    ///
    /// The answer decodes as [`crate::committees::CommitteePrintsResponse`].
    pub fn list_committee_prints_by_chamber(
        &self,
        congress: i32,
        chamber: String,
        offset: Option<i32>,
        limit: Option<i32>,
        from_date: Option<String>,
        to_date: Option<String>,
        sort: Option<String>,
        format: Option<String>,
    ) -> (r: Request)
        ensures
            self.is_request(
                r,
                "/committee-print/"@ + decimal(congress as int) + "/"@ + lowered(chamber@),
                int_param("offset"@, offset)
                    + int_param("limit"@, limit)
                    + text_param("fromDateTime"@, from_date)
                    + text_param("toDateTime"@, to_date)
                    + text_param("sort"@, sort)
                    + text_param("format"@, format),
            ),
            r.path@ == "/committee-print/"@ + decimal(congress as int) + "/"@ + lower_of(chamber@),
    {
        let mut params: Vec<(String, String)> = Vec::new();
        push_int(&mut params, "offset", offset);
        push_int(&mut params, "limit", limit);
        push_text(&mut params, "fromDateTime", from_date);
        push_text(&mut params, "toDateTime", to_date);
        push_text(&mut params, "sort", sort);
        push_text(&mut params, "format", format);
        proof {
            assert(query_view(params@) =~= int_param("offset"@, offset)
                + int_param("limit"@, limit)
                + text_param("fromDateTime"@, from_date)
                + text_param("toDateTime"@, to_date)
                + text_param("sort"@, sort)
                + text_param("format"@, format));
        }
        let mut path = String::from_str("/committee-print/");
        append_decimal(&mut path, congress as i64);
        path.append("/");
        path.append(lowercase(chamber.as_str()).as_str());
        self.client.get(path.as_str(), Some(params))
    }

    /// Requests detailed information about a specific committee print.
    ///
    /// The answer decodes as [`crate::committees::CommitteePrintDetailResponse`].
    pub fn get_committee_print(
        &self,
        congress: i32,
        chamber: String,
        jacket_number: i32,
        format: Option<String>,
    ) -> (r: Request)
        ensures
            self.is_request(
                r,
                "/committee-print/"@
                    + decimal(congress as int)
                    + "/"@
                    + lowered(chamber@)
                    + "/"@
                    + decimal(jacket_number as int),
                text_param("format"@, format),
            ),
            r.path@ == "/committee-print/"@
                + decimal(congress as int)
                + "/"@
                + lower_of(chamber@)
                + "/"@
                + decimal(jacket_number as int),
    {
        let mut params: Vec<(String, String)> = Vec::new();
        push_text(&mut params, "format", format);
        proof {
            assert(query_view(params@) =~= text_param("format"@, format));
        }
        let mut path = String::from_str("/committee-print/");
        append_decimal(&mut path, congress as i64);
        path.append("/");
        path.append(lowercase(chamber.as_str()).as_str());
        path.append("/");
        append_decimal(&mut path, jacket_number as i64);
        self.client.get(path.as_str(), Some(params))
    }

    /// Requests text formats available for a committee print.
    ///
    /// The answer decodes as [`crate::committees::CommitteePrintTextResponse`].
    pub fn get_committee_print_text(
        &self,
        congress: i32,
        chamber: String,
        jacket_number: i32,
        format: Option<String>,
    ) -> (r: Request)
        ensures
            self.is_request(
                r,
                "/committee-print/"@
                    + decimal(congress as int)
                    + "/"@
                    + lowered(chamber@)
                    + "/"@
                    + decimal(jacket_number as int)
                    + "/text"@,
                text_param("format"@, format),
            ),
            r.path@ == "/committee-print/"@
                + decimal(congress as int)
                + "/"@
                + lower_of(chamber@)
                + "/"@
                + decimal(jacket_number as int)
                + "/text"@,
    {
        let mut params: Vec<(String, String)> = Vec::new();
        push_text(&mut params, "format", format);
        proof {
            assert(query_view(params@) =~= text_param("format"@, format));
        }
        let mut path = String::from_str("/committee-print/");
        append_decimal(&mut path, congress as i64);
        path.append("/");
        path.append(lowercase(chamber.as_str()).as_str());
        path.append("/");
        append_decimal(&mut path, jacket_number as i64);
        path.append("/text");
        self.client.get(path.as_str(), Some(params))
    }

    /// Requests a list of all nominations.
    ///
    /// The answer decodes as [`crate::nominations::NominationsResponse`].
    pub fn list_nominations(
        &self,
        offset: Option<i32>,
        limit: Option<i32>,
        sort: Option<String>,
        format: Option<String>,
    ) -> (r: Request)
        ensures
            self.is_request(
                r,
                "/nomination"@,
                int_param("offset"@, offset)
                    + int_param("limit"@, limit)
                    + text_param("sort"@, sort)
                    + text_param("format"@, format),
            ),
    {
        let mut params: Vec<(String, String)> = Vec::new();
        push_int(&mut params, "offset", offset);
        push_int(&mut params, "limit", limit);
        push_text(&mut params, "sort", sort);
        push_text(&mut params, "format", format);
        proof {
            assert(query_view(params@) =~= int_param("offset"@, offset)
                + int_param("limit"@, limit)
                + text_param("sort"@, sort)
                + text_param("format"@, format));
        }
        self.client.get("/nomination", Some(params))
    }

    /// Requests nominations by congress.
    ///
    /// The answer decodes as [`crate::nominations::NominationsResponse`].
    pub fn list_nominations_by_congress(
        &self,
        congress: i32,
        offset: Option<i32>,
        limit: Option<i32>,
        sort: Option<String>,
        format: Option<String>,
    ) -> (r: Request)
        ensures
            self.is_request(
                r,
                "/nomination/"@ + decimal(congress as int),
                int_param("offset"@, offset)
                    + int_param("limit"@, limit)
                    + text_param("sort"@, sort)
                    + text_param("format"@, format),
            ),
    {
        let mut params: Vec<(String, String)> = Vec::new();
        push_int(&mut params, "offset", offset);
        push_int(&mut params, "limit", limit);
        push_text(&mut params, "sort", sort);
        push_text(&mut params, "format", format);
        proof {
            assert(query_view(params@) =~= int_param("offset"@, offset)
                + int_param("limit"@, limit)
                + text_param("sort"@, sort)
                + text_param("format"@, format));
        }
        let mut path = String::from_str("/nomination/");
        append_decimal(&mut path, congress as i64);
        self.client.get(path.as_str(), Some(params))
    }

    /// Requests a specific nomination.
    ///
    /// The answer decodes as [`crate::nominations::NominationDetailResponse`].
    pub fn get_nomination(
        &self,
        congress: i32,
        nomination_number: String,
        format: Option<String>,
    ) -> (r: Request)
        ensures
            self.is_request(
                r,
                "/nomination/"@ + decimal(congress as int) + "/"@ + nomination_number@,
                text_param("format"@, format),
            ),
    {
        let mut params: Vec<(String, String)> = Vec::new();
        push_text(&mut params, "format", format);
        proof {
            assert(query_view(params@) =~= text_param("format"@, format));
        }
        let mut path = String::from_str("/nomination/");
        append_decimal(&mut path, congress as i64);
        path.append("/");
        path.append(nomination_number.as_str());
        self.client.get(path.as_str(), Some(params))
    }

    /// Requests nominees for a nomination.
    ///
    /// The answer decodes as [`crate::nominations::NomineesResponse`].
    pub fn get_nomination_nominees(
        &self,
        congress: i32,
        nomination_number: String,
        offset: Option<i32>,
        limit: Option<i32>,
        format: Option<String>,
    ) -> (r: Request)
        ensures
            self.is_request(
                r,
                "/nomination/"@
                    + decimal(congress as int)
                    + "/"@
                    + nomination_number@
                    + "/nominees"@,
                int_param("offset"@, offset)
                    + int_param("limit"@, limit)
                    + text_param("format"@, format),
            ),
    {
        let mut params: Vec<(String, String)> = Vec::new();
        push_int(&mut params, "offset", offset);
        push_int(&mut params, "limit", limit);
        push_text(&mut params, "format", format);
        proof {
            assert(query_view(params@) =~= int_param("offset"@, offset)
                + int_param("limit"@, limit)
                + text_param("format"@, format));
        }
        let mut path = String::from_str("/nomination/");
        append_decimal(&mut path, congress as i64);
        path.append("/");
        path.append(nomination_number.as_str());
        path.append("/nominees");
        self.client.get(path.as_str(), Some(params))
    }

    /// Requests a list of all treaties.
    ///
    /// The answer decodes as [`crate::treaties::TreatiesResponse`].
    pub fn list_treaties(
        &self,
        offset: Option<i32>,
        limit: Option<i32>,
        sort: Option<String>,
        format: Option<String>,
    ) -> (r: Request)
        ensures
            self.is_request(
                r,
                "/treaty"@,
                int_param("offset"@, offset)
                    + int_param("limit"@, limit)
                    + text_param("sort"@, sort)
                    + text_param("format"@, format),
            ),
    {
        let mut params: Vec<(String, String)> = Vec::new();
        push_int(&mut params, "offset", offset);
        push_int(&mut params, "limit", limit);
        push_text(&mut params, "sort", sort);
        push_text(&mut params, "format", format);
        proof {
            assert(query_view(params@) =~= int_param("offset"@, offset)
                + int_param("limit"@, limit)
                + text_param("sort"@, sort)
                + text_param("format"@, format));
        }
        self.client.get("/treaty", Some(params))
    }

    /// Requests treaties by congress.
    ///
    /// The answer decodes as [`crate::treaties::TreatiesResponse`].
    pub fn list_treaties_by_congress(
        &self,
        congress: i32,
        offset: Option<i32>,
        limit: Option<i32>,
        sort: Option<String>,
        format: Option<String>,
    ) -> (r: Request)
        ensures
            self.is_request(
                r,
                "/treaty/"@ + decimal(congress as int),
                int_param("offset"@, offset)
                    + int_param("limit"@, limit)
                    + text_param("sort"@, sort)
                    + text_param("format"@, format),
            ),
    {
        let mut params: Vec<(String, String)> = Vec::new();
        push_int(&mut params, "offset", offset);
        push_int(&mut params, "limit", limit);
        push_text(&mut params, "sort", sort);
        push_text(&mut params, "format", format);
        proof {
            assert(query_view(params@) =~= int_param("offset"@, offset)
                + int_param("limit"@, limit)
                + text_param("sort"@, sort)
                + text_param("format"@, format));
        }
        let mut path = String::from_str("/treaty/");
        append_decimal(&mut path, congress as i64);
        self.client.get(path.as_str(), Some(params))
    }

    /// Requests a specific treaty.
    ///
    /// The answer decodes as [`crate::treaties::TreatyDetailResponse`].
    pub fn get_treaty(
        &self,
        congress: i32,
        treaty_number: String,
        format: Option<String>,
    ) -> (r: Request)
        ensures
            self.is_request(
                r,
                "/treaty/"@ + decimal(congress as int) + "/"@ + treaty_number@,
                text_param("format"@, format),
            ),
    {
        let mut params: Vec<(String, String)> = Vec::new();
        push_text(&mut params, "format", format);
        proof {
            assert(query_view(params@) =~= text_param("format"@, format));
        }
        let mut path = String::from_str("/treaty/");
        append_decimal(&mut path, congress as i64);
        path.append("/");
        path.append(treaty_number.as_str());
        self.client.get(path.as_str(), Some(params))
    }

    /// Requests a list of all hearings.
    ///
    /// The answer decodes as [`crate::hearings::HearingsResponse`].
    pub fn list_hearings(
        &self,
        offset: Option<i32>,
        limit: Option<i32>,
        sort: Option<String>,
        format: Option<String>,
    ) -> (r: Request)
        ensures
            self.is_request(
                r,
                "/hearing"@,
                int_param("offset"@, offset)
                    + int_param("limit"@, limit)
                    + text_param("sort"@, sort)
                    + text_param("format"@, format),
            ),
    {
        let mut params: Vec<(String, String)> = Vec::new();
        push_int(&mut params, "offset", offset);
        push_int(&mut params, "limit", limit);
        push_text(&mut params, "sort", sort);
        push_text(&mut params, "format", format);
        proof {
            assert(query_view(params@) =~= int_param("offset"@, offset)
                + int_param("limit"@, limit)
                + text_param("sort"@, sort)
                + text_param("format"@, format));
        }
        self.client.get("/hearing", Some(params))
    }

    /// Requests hearings by congress.
    ///
    /// The answer decodes as [`crate::hearings::HearingsResponse`].
    pub fn list_hearings_by_congress(
        &self,
        congress: i32,
        offset: Option<i32>,
        limit: Option<i32>,
        sort: Option<String>,
        format: Option<String>,
    ) -> (r: Request)
        ensures
            self.is_request(
                r,
                "/hearing/"@ + decimal(congress as int),
                int_param("offset"@, offset)
                    + int_param("limit"@, limit)
                    + text_param("sort"@, sort)
                    + text_param("format"@, format),
            ),
    {
        let mut params: Vec<(String, String)> = Vec::new();
        push_int(&mut params, "offset", offset);
        push_int(&mut params, "limit", limit);
        push_text(&mut params, "sort", sort);
        push_text(&mut params, "format", format);
        proof {
            assert(query_view(params@) =~= int_param("offset"@, offset)
                + int_param("limit"@, limit)
                + text_param("sort"@, sort)
                + text_param("format"@, format));
        }
        let mut path = String::from_str("/hearing/");
        append_decimal(&mut path, congress as i64);
        self.client.get(path.as_str(), Some(params))
    }

    /// Requests hearings by congress and chamber.
    ///
    /// The answer decodes as [`crate::hearings::HearingsResponse`].
    pub fn list_hearings_by_chamber(
        &self,
        congress: i32,
        chamber: String,
        offset: Option<i32>,
        limit: Option<i32>,
        sort: Option<String>,
        format: Option<String>,
    ) -> (r: Request)
        ensures
            self.is_request(
                r,
                "/hearing/"@ + decimal(congress as int) + "/"@ + lowered(chamber@),
                int_param("offset"@, offset)
                    + int_param("limit"@, limit)
                    + text_param("sort"@, sort)
                    + text_param("format"@, format),
            ),
            r.path@ == "/hearing/"@ + decimal(congress as int) + "/"@ + lower_of(chamber@),
    {
        let mut params: Vec<(String, String)> = Vec::new();
        push_int(&mut params, "offset", offset);
        push_int(&mut params, "limit", limit);
        push_text(&mut params, "sort", sort);
        push_text(&mut params, "format", format);
        proof {
            assert(query_view(params@) =~= int_param("offset"@, offset)
                + int_param("limit"@, limit)
                + text_param("sort"@, sort)
                + text_param("format"@, format));
        }
        let mut path = String::from_str("/hearing/");
        append_decimal(&mut path, congress as i64);
        path.append("/");
        path.append(lowercase(chamber.as_str()).as_str());
        self.client.get(path.as_str(), Some(params))
    }

    /// Requests a specific hearing.
    ///
    /// The answer decodes as [`crate::hearings::HearingDetailResponse`].
    pub fn get_hearing(
        &self,
        congress: i32,
        chamber: String,
        jacket_number: i32,
        format: Option<String>,
    ) -> (r: Request)
        ensures
            self.is_request(
                r,
                "/hearing/"@
                    + decimal(congress as int)
                    + "/"@
                    + lowered(chamber@)
                    + "/"@
                    + decimal(jacket_number as int),
                text_param("format"@, format),
            ),
            r.path@ == "/hearing/"@
                + decimal(congress as int)
                + "/"@
                + lower_of(chamber@)
                + "/"@
                + decimal(jacket_number as int),
    {
        let mut params: Vec<(String, String)> = Vec::new();
        push_text(&mut params, "format", format);
        proof {
            assert(query_view(params@) =~= text_param("format"@, format));
        }
        let mut path = String::from_str("/hearing/");
        append_decimal(&mut path, congress as i64);
        path.append("/");
        path.append(lowercase(chamber.as_str()).as_str());
        path.append("/");
        append_decimal(&mut path, jacket_number as i64);
        self.client.get(path.as_str(), Some(params))
    }

    /// Requests daily congressional records.
    ///
    /// The answer decodes as [`crate::congressional_record::DailyCongressionalRecordsResponse`].
    pub fn list_congressional_records(
        &self,
        offset: Option<i32>,
        limit: Option<i32>,
        format: Option<String>,
    ) -> (r: Request)
        ensures
            self.is_request(
                r,
                "/daily-congressional-record"@,
                int_param("offset"@, offset)
                    + int_param("limit"@, limit)
                    + text_param("format"@, format),
            ),
    {
        let mut params: Vec<(String, String)> = Vec::new();
        push_int(&mut params, "offset", offset);
        push_int(&mut params, "limit", limit);
        push_text(&mut params, "format", format);
        proof {
            assert(query_view(params@) =~= int_param("offset"@, offset)
                + int_param("limit"@, limit)
                + text_param("format"@, format));
        }
        self.client.get("/daily-congressional-record", Some(params))
    }

    /// Requests a list of all laws.
    ///
    /// The answer decodes as [`crate::laws::LawsResponse`].
    pub fn list_laws(
        &self,
        offset: Option<i32>,
        limit: Option<i32>,
        format: Option<String>,
    ) -> (r: Request)
        ensures
            self.is_request(
                r,
                "/law"@,
                int_param("offset"@, offset)
                    + int_param("limit"@, limit)
                    + text_param("format"@, format),
            ),
    {
        let mut params: Vec<(String, String)> = Vec::new();
        push_int(&mut params, "offset", offset);
        push_int(&mut params, "limit", limit);
        push_text(&mut params, "format", format);
        proof {
            assert(query_view(params@) =~= int_param("offset"@, offset)
                + int_param("limit"@, limit)
                + text_param("format"@, format));
        }
        self.client.get("/law", Some(params))
    }

    /// Requests laws by congress.
    ///
    /// The answer decodes as [`crate::laws::LawsResponse`].
    pub fn list_laws_by_congress(
        &self,
        congress: i32,
        offset: Option<i32>,
        limit: Option<i32>,
        format: Option<String>,
    ) -> (r: Request)
        ensures
            self.is_request(
                r,
                "/law/"@ + decimal(congress as int),
                int_param("offset"@, offset)
                    + int_param("limit"@, limit)
                    + text_param("format"@, format),
            ),
    {
        let mut params: Vec<(String, String)> = Vec::new();
        push_int(&mut params, "offset", offset);
        push_int(&mut params, "limit", limit);
        push_text(&mut params, "format", format);
        proof {
            assert(query_view(params@) =~= int_param("offset"@, offset)
                + int_param("limit"@, limit)
                + text_param("format"@, format));
        }
        let mut path = String::from_str("/law/");
        append_decimal(&mut path, congress as i64);
        self.client.get(path.as_str(), Some(params))
    }

    /// Laws of one congress and one kind, public or private.
    ///
    /// The answer decodes as [`crate::laws::LawsResponse`].
    pub fn list_laws_by_type(
        &self,
        congress: i32,
        law_type: LawType,
        offset: Option<i32>,
        limit: Option<i32>,
        format: Option<String>,
    ) -> (r: Request)
        ensures
            self.is_request(
                r,
                "/law/"@ + decimal(congress as int) + "/"@ + law_type.segment_view(),
                int_param("offset"@, offset)
                    + int_param("limit"@, limit)
                    + text_param("format"@, format),
            ),
    {
        let mut params: Vec<(String, String)> = Vec::new();
        push_int(&mut params, "offset", offset);
        push_int(&mut params, "limit", limit);
        push_text(&mut params, "format", format);
        proof {
            assert(query_view(params@) =~= int_param("offset"@, offset)
                + int_param("limit"@, limit)
                + text_param("format"@, format));
        }
        let mut path = String::from_str("/law/");
        append_decimal(&mut path, congress as i64);
        path.append("/");
        path.append(law_type.segment());
        self.client.get(path.as_str(), Some(params))
    }

    /// A law, named by the congress and by the type and number of the bill that became it.
    ///
    /// `law_type` is a bill type such as `hr`, `s`, `hjres` or `sjres`, in any letter
    /// case: it is lower-cased in the path. It is not a [`LawType`]; that one belongs to
    /// [`CDGPythonClient::list_laws_by_type`].
    ///
    /// The answer decodes as [`crate::laws::LawDetailResponse`].
    pub fn get_law(
        &self,
        congress: i32,
        law_type: String,
        law_number: String,
        format: Option<String>,
    ) -> (r: Request)
        ensures
            self.is_request(
                r,
                "/law/"@
                    + decimal(congress as int)
                    + "/"@
                    + lowered(law_type@)
                    + "/"@
                    + law_number@,
                text_param("format"@, format),
            ),
            r.path@ == "/law/"@
                + decimal(congress as int)
                + "/"@
                + lower_of(law_type@)
                + "/"@
                + law_number@,
    {
        let mut params: Vec<(String, String)> = Vec::new();
        push_text(&mut params, "format", format);
        proof {
            assert(query_view(params@) =~= text_param("format"@, format));
        }
        let mut path = String::from_str("/law/");
        append_decimal(&mut path, congress as i64);
        path.append("/");
        path.append(lowercase(law_type.as_str()).as_str());
        path.append("/");
        path.append(law_number.as_str());
        self.client.get(path.as_str(), Some(params))
    }

    /// Requests a list of summaries.
    ///
    /// The answer decodes as [`crate::summaries::SummariesListResponse`].
    pub fn list_summaries(
        &self,
        offset: Option<i32>,
        limit: Option<i32>,
        format: Option<String>,
    ) -> (r: Request)
        ensures
            self.is_request(
                r,
                "/summaries"@,
                int_param("offset"@, offset)
                    + int_param("limit"@, limit)
                    + text_param("format"@, format),
            ),
    {
        let mut params: Vec<(String, String)> = Vec::new();
        push_int(&mut params, "offset", offset);
        push_int(&mut params, "limit", limit);
        push_text(&mut params, "format", format);
        proof {
            assert(query_view(params@) =~= int_param("offset"@, offset)
                + int_param("limit"@, limit)
                + text_param("format"@, format));
        }
        self.client.get("/summaries", Some(params))
    }

    /// Requests summaries by congress.
    ///
    /// The answer decodes as [`crate::summaries::SummariesListResponse`].
    pub fn list_summaries_by_congress(
        &self,
        congress: i32,
        offset: Option<i32>,
        limit: Option<i32>,
        format: Option<String>,
    ) -> (r: Request)
        ensures
            self.is_request(
                r,
                "/summaries/"@ + decimal(congress as int),
                int_param("offset"@, offset)
                    + int_param("limit"@, limit)
                    + text_param("format"@, format),
            ),
    {
        let mut params: Vec<(String, String)> = Vec::new();
        push_int(&mut params, "offset", offset);
        push_int(&mut params, "limit", limit);
        push_text(&mut params, "format", format);
        proof {
            assert(query_view(params@) =~= int_param("offset"@, offset)
                + int_param("limit"@, limit)
                + text_param("format"@, format));
        }
        let mut path = String::from_str("/summaries/");
        append_decimal(&mut path, congress as i64);
        self.client.get(path.as_str(), Some(params))
    }

    /// Requests a list of CRS reports.
    ///
    /// The answer decodes as [`crate::crsreport::CrsReportsResponse`].
    pub fn list_crs_reports(
        &self,
        offset: Option<i32>,
        limit: Option<i32>,
        from_date_time: Option<String>,
        to_date_time: Option<String>,
        format: Option<String>,
    ) -> (r: Request)
        ensures
            self.is_request(
                r,
                "/crsreport"@,
                int_param("offset"@, offset)
                    + int_param("limit"@, limit)
                    + text_param("fromDateTime"@, from_date_time)
                    + text_param("toDateTime"@, to_date_time)
                    + text_param("format"@, format),
            ),
    {
        let mut params: Vec<(String, String)> = Vec::new();
        push_int(&mut params, "offset", offset);
        push_int(&mut params, "limit", limit);
        push_text(&mut params, "fromDateTime", from_date_time);
        push_text(&mut params, "toDateTime", to_date_time);
        push_text(&mut params, "format", format);
        proof {
            assert(query_view(params@) =~= int_param("offset"@, offset)
                + int_param("limit"@, limit)
                + text_param("fromDateTime"@, from_date_time)
                + text_param("toDateTime"@, to_date_time)
                + text_param("format"@, format));
        }
        self.client.get("/crsreport", Some(params))
    }

    /// Requests detailed information for a specific CRS report.
    ///
    /// The answer decodes as [`crate::crsreport::CrsReportDetailResponse`].
    pub fn get_crs_report(&self, report_number: String, format: Option<String>) -> (r: Request)
        ensures
            self.is_request(r, "/crsreport/"@ + report_number@, text_param("format"@, format)),
    {
        let mut params: Vec<(String, String)> = Vec::new();
        push_text(&mut params, "format", format);
        proof {
            assert(query_view(params@) =~= text_param("format"@, format));
        }
        let mut path = String::from_str("/crsreport/");
        path.append(report_number.as_str());
        self.client.get(path.as_str(), Some(params))
    }
}

/// An optional argument that is left out adds no query parameter.
pub proof fn lemma_absent_option_adds_nothing(name: Seq<char>)
    ensures
        text_param(name, None) == Seq::<(Seq<char>, Seq<char>)>::empty(),
        int_param(name, None) == Seq::<(Seq<char>, Seq<char>)>::empty(),
        flag_param(name, None) == Seq::<(Seq<char>, Seq<char>)>::empty(),
{
}

/// A request built with every optional argument left out carries the API key as
/// its one query parameter.
pub proof fn lemma_no_options_only_api_key(c: CDGPythonClient, r: Request, path: Seq<char>)
    requires
        c.is_request(r, path, Seq::empty()),
    ensures
        query_view(r.query@) == seq![("api_key"@, c.api_key_view())],
{
    let key = seq![("api_key"@, c.api_key_view())];
    assert(key + Seq::empty() =~= key);
}

/// Two ASCII path segments that differ only in letter case are sent as the same
/// segment, and so is a segment and its lower-case form.
pub proof fn lemma_segment_case_ignored(a: Seq<char>, b: Seq<char>)
    requires
        ascii_only(a),
        ascii_only(b),
        ascii_lower(a) == ascii_lower(b),
    ensures
        lowered(a) == lowered(b),
        lowered(ascii_lower(a)) == lowered(a),
{
    crate::text::lemma_ascii_lower_idempotent(a);
}

/// `get_law` sends the same path for any two bill types that lower-case to the
/// same text.
pub proof fn lemma_get_law_same_lowercase(
    r1: Request,
    r2: Request,
    congress: i32,
    type1: Seq<char>,
    type2: Seq<char>,
    number: Seq<char>,
)
    requires
        lower_of(type1) == lower_of(type2),
        r1.path@ == "/law/"@ + decimal(congress as int) + "/"@ + lower_of(type1) + "/"@ + number,
        r2.path@ == "/law/"@ + decimal(congress as int) + "/"@ + lower_of(type2) + "/"@ + number,
    ensures
        r1.path@ == r2.path@,
{
}

/// `list_hearings_by_chamber` sends the same path for any two chambers that
/// lower-case to the same text.
pub proof fn lemma_hearings_by_chamber_same_lowercase(
    r1: Request,
    r2: Request,
    congress: i32,
    chamber1: Seq<char>,
    chamber2: Seq<char>,
)
    requires
        lower_of(chamber1) == lower_of(chamber2),
        r1.path@ == "/hearing/"@ + decimal(congress as int) + "/"@ + lower_of(chamber1),
        r2.path@ == "/hearing/"@ + decimal(congress as int) + "/"@ + lower_of(chamber2),
    ensures
        r1.path@ == r2.path@,
{
}

/// `get_hearing` sends the same path for any two chambers that lower-case to the
/// same text.
pub proof fn lemma_get_hearing_same_lowercase(
    r1: Request,
    r2: Request,
    congress: i32,
    chamber1: Seq<char>,
    chamber2: Seq<char>,
    jacket_number: i32,
)
    requires
        lower_of(chamber1) == lower_of(chamber2),
        r1.path@ == "/hearing/"@ + decimal(congress as int) + "/"@ + lower_of(chamber1) + "/"@
            + decimal(jacket_number as int),
        r2.path@ == "/hearing/"@ + decimal(congress as int) + "/"@ + lower_of(chamber2) + "/"@
            + decimal(jacket_number as int),
    ensures
        r1.path@ == r2.path@,
{
}

/// `get_law` sends the same path for ASCII bill types that differ only in letter
/// case, such as `HR` and `hr`.
pub proof fn lemma_get_law_ignores_case(
    c: CDGPythonClient,
    r1: Request,
    r2: Request,
    congress: i32,
    type1: Seq<char>,
    type2: Seq<char>,
    number: Seq<char>,
    q1: Seq<(Seq<char>, Seq<char>)>,
    q2: Seq<(Seq<char>, Seq<char>)>,
)
    requires
        ascii_only(type1),
        ascii_only(type2),
        ascii_lower(type1) == ascii_lower(type2),
        c.is_request(
            r1,
            "/law/"@ + decimal(congress as int) + "/"@ + lowered(type1) + "/"@ + number,
            q1,
        ),
        c.is_request(
            r2,
            "/law/"@ + decimal(congress as int) + "/"@ + lowered(type2) + "/"@ + number,
            q2,
        ),
    ensures
        r1.path@ == r2.path@,
{
    lemma_segment_case_ignored(type1, type2);
}

/// `list_hearings_by_chamber` sends the same path for ASCII chambers that differ
/// only in letter case, such as `Senate` and `senate`.
pub proof fn lemma_hearings_by_chamber_ignore_case(
    c: CDGPythonClient,
    r1: Request,
    r2: Request,
    congress: i32,
    chamber1: Seq<char>,
    chamber2: Seq<char>,
    q1: Seq<(Seq<char>, Seq<char>)>,
    q2: Seq<(Seq<char>, Seq<char>)>,
)
    requires
        ascii_only(chamber1),
        ascii_only(chamber2),
        ascii_lower(chamber1) == ascii_lower(chamber2),
        c.is_request(r1, "/hearing/"@ + decimal(congress as int) + "/"@ + lowered(chamber1), q1),
        c.is_request(r2, "/hearing/"@ + decimal(congress as int) + "/"@ + lowered(chamber2), q2),
    ensures
        r1.path@ == r2.path@,
{
    lemma_segment_case_ignored(chamber1, chamber2);
}

/// `get_hearing` sends the same path for ASCII chambers that differ only in
/// letter case, such as `Senate` and `senate`.
pub proof fn lemma_get_hearing_ignores_case(
    c: CDGPythonClient,
    r1: Request,
    r2: Request,
    congress: i32,
    chamber1: Seq<char>,
    chamber2: Seq<char>,
    jacket_number: i32,
    q1: Seq<(Seq<char>, Seq<char>)>,
    q2: Seq<(Seq<char>, Seq<char>)>,
)
    requires
        ascii_only(chamber1),
        ascii_only(chamber2),
        ascii_lower(chamber1) == ascii_lower(chamber2),
        c.is_request(
            r1,
            "/hearing/"@ + decimal(congress as int) + "/"@ + lowered(chamber1) + "/"@ + decimal(
                jacket_number as int,
            ),
            q1,
        ),
        c.is_request(
            r2,
            "/hearing/"@ + decimal(congress as int) + "/"@ + lowered(chamber2) + "/"@ + decimal(
                jacket_number as int,
            ),
            q2,
        ),
    ensures
        r1.path@ == r2.path@,
{
    lemma_segment_case_ignored(chamber1, chamber2);
}

} // verus!
