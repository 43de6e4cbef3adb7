use cdg_client::bills::{BillDetailResponse, BillsResponse, RelatedBillsResponse, SubjectsResponse};
use cdg_client::client::{
    check_status, decode_body, is_success, response_result, ApiError, CDGPythonClient,
};
use cdg_client::json::Json;
use cdg_client::laws::LawDetailResponse;
use cdg_client::members::{CosponsoredLegislationResponse, SponsoredLegislationResponse};
use cdg_client::house_votes::HouseVoteMembersResponse;
use cdg_client::text::decimal_string;

fn s(v: &str) -> Json {
    Json::Str(v.to_string())
}

fn obj(entries: Vec<(&str, Json)>) -> Json {
    Json::Object(entries.into_iter().map(|(k, v)| (k.to_string(), v)).collect())
}

#[test]
fn bill_detail_scenario() {
    let request = CDGPythonClient::new("KEY".to_string()).get_bill(118, "hr".to_string(), 3076);
    assert_eq!(request.path, "/bill/118/hr/3076");
    let body = obj(vec![(
        "bill",
        obj(vec![
            ("congress", Json::Integer(118)),
            ("number", s("3076")),
            ("type", s("HR")),
            ("title", s("Postal Service Reform Act")),
        ]),
    )]);
    let env: BillDetailResponse = decode_body(Some(&body)).unwrap();
    let bill = env.bill;
    assert_eq!(bill.congress, Some(118));
    assert_eq!(bill.number.as_deref(), Some("3076"));
    assert_eq!(bill.bill_type.as_deref(), Some("HR"));
    assert_eq!(bill.title.as_deref(), Some("Postal Service Reform Act"));
}

#[test]
fn minimal_body_leaves_other_fields_absent() {
    let body = obj(vec![(
        "bill",
        obj(vec![("congress", Json::Integer(118)), ("number", s("3076"))]),
    )]);
    let bill = decode_body::<BillDetailResponse>(Some(&body)).unwrap().bill;
    assert_eq!(bill.congress, Some(118));
    assert_eq!(bill.number.as_deref(), Some("3076"));
    assert_eq!(bill.title, None);
    assert_eq!(bill.latest_action, None);
    assert_eq!(bill.sponsors, None);
    assert_eq!(bill.policy_area, None);
    assert_eq!(bill.laws, None);
}

#[test]
fn sponsored_legislation_empty_list() {
    let client = CDGPythonClient::new("KEY".to_string());
    let request = client.get_member_sponsored_legislation("P000197".to_string(), None, None, None);
    assert_eq!(request.path, "/member/P000197/sponsored-legislation");
    let body = obj(vec![("sponsoredLegislation", Json::Array(vec![]))]);
    let env: SponsoredLegislationResponse = decode_body(Some(&body)).unwrap();
    assert!(env.sponsored_legislation.is_empty());
}

#[test]
fn api_failure_keeps_status_code() {
    let e = check_status(404).unwrap_err();
    assert_eq!(e, ApiError::ApiError(404));
    assert_eq!(e.status(), Some(404));
    assert_eq!(e.message(), "API error: API returned status: 404");
}

#[test]
fn success_statuses_are_2xx() {
    assert!(check_status(200).is_ok());
    assert!(check_status(204).is_ok());
    assert!(check_status(299).is_ok());
    assert_eq!(check_status(199), Err(ApiError::ApiError(199)));
    assert_eq!(check_status(300), Err(ApiError::ApiError(300)));
    assert_eq!(check_status(500), Err(ApiError::ApiError(500)));
    assert!(is_success(201));
    assert!(!is_success(301));
}

#[test]
fn error_messages() {
    assert_eq!(
        ApiError::RequestFailed("timed out".to_string()).message(),
        "HTTP request failed: timed out"
    );
    assert_eq!(ApiError::RequestFailed("x".to_string()).status(), None);
    assert_eq!(ApiError::ShapeMismatch.status(), None);
}

#[test]
fn missing_related_bills_is_empty() {
    let body = obj(vec![("pagination", obj(vec![("count", Json::Integer(0))]))]);
    let env: RelatedBillsResponse = decode_body(Some(&body)).unwrap();
    assert!(env.into_related_bills().is_empty());
}

#[test]
fn related_bills_present_are_kept() {
    let body = obj(vec![(
        "relatedBills",
        Json::Array(vec![obj(vec![("congress", Json::Integer(117)), ("number", Json::Integer(12))])]),
    )]);
    let related = decode_body::<RelatedBillsResponse>(Some(&body)).unwrap().into_related_bills();
    assert_eq!(related.len(), 1);
    assert_eq!(related[0].congress, Some(117));
    assert_eq!(related[0].number, Some(12));
}

#[test]
fn missing_subjects_is_empty() {
    let body = obj(vec![("policyArea", obj(vec![("name", s("Taxation"))]))]);
    let env: SubjectsResponse = decode_body(Some(&body)).unwrap();
    assert_eq!(env.policy_area.as_ref().and_then(|p| p.name.as_deref()), Some("Taxation"));
    assert!(env.into_subjects().is_empty());
}

#[test]
fn subjects_present_are_kept() {
    let body = obj(vec![(
        "legislativeSubjects",
        Json::Array(vec![obj(vec![("name", s("Postal service"))]), obj(vec![("name", s("Taxation"))])]),
    )]);
    let subjects = decode_body::<SubjectsResponse>(Some(&body)).unwrap().into_subjects();
    assert_eq!(subjects.len(), 2);
    assert_eq!(subjects[1].name.as_deref(), Some("Taxation"));
}

#[test]
fn missing_cosponsored_legislation_is_empty() {
    let body = obj(vec![]);
    let env: CosponsoredLegislationResponse = decode_body(Some(&body)).unwrap();
    assert!(env.into_cosponsored_legislation().is_empty());
}

#[test]
fn missing_required_list_is_a_shape_mismatch() {
    let body = obj(vec![("pagination", Json::Null)]);
    assert_eq!(decode_body::<BillsResponse>(Some(&body)), Err(ApiError::ShapeMismatch));
    let body = obj(vec![("bills", Json::Null)]);
    assert_eq!(decode_body::<BillsResponse>(Some(&body)), Err(ApiError::ShapeMismatch));
}

#[test]
fn body_that_is_not_json_is_a_shape_mismatch() {
    assert_eq!(decode_body::<BillsResponse>(None), Err(ApiError::ShapeMismatch));
}

#[test]
fn wrong_member_kind_is_a_shape_mismatch() {
    let body = obj(vec![("bills", Json::Array(vec![obj(vec![("congress", s("118"))])]))]);
    assert_eq!(decode_body::<BillsResponse>(Some(&body)), Err(ApiError::ShapeMismatch));
    let body = obj(vec![("bills", Json::Array(vec![s("not a bill")]))]);
    assert_eq!(decode_body::<BillsResponse>(Some(&body)), Err(ApiError::ShapeMismatch));
    let body = obj(vec![("bills", obj(vec![]))]);
    assert_eq!(decode_body::<BillsResponse>(Some(&body)), Err(ApiError::ShapeMismatch));
}

#[test]
fn integer_out_of_range_is_a_shape_mismatch() {
    let body = obj(vec![("bills", Json::Array(vec![obj(vec![("congress", Json::Integer(1 << 40))])]))]);
    assert_eq!(decode_body::<BillsResponse>(Some(&body)), Err(ApiError::ShapeMismatch));
    let body = obj(vec![("bills", Json::Array(vec![obj(vec![("congress", Json::OtherNumber)])]))]);
    assert_eq!(decode_body::<BillsResponse>(Some(&body)), Err(ApiError::ShapeMismatch));
    let body = obj(vec![(
        "bills",
        Json::Array(vec![obj(vec![("congress", Json::Integer(i32::MIN as i64))])]),
    )]);
    let bills = decode_body::<BillsResponse>(Some(&body)).unwrap().bills;
    assert_eq!(bills[0].congress, Some(i32::MIN));
}

#[test]
fn null_members_are_absent_and_unknown_members_ignored() {
    let body = obj(vec![(
        "bills",
        Json::Array(vec![
            obj(vec![("congress", Json::Null), ("title", s("A")), ("extra", Json::Bool(true))]),
            obj(vec![("latestAction", obj(vec![("actionDate", s("2024-05-01")), ("text", s("Passed"))]))]),
        ]),
    )]);
    let bills = decode_body::<BillsResponse>(Some(&body)).unwrap().bills;
    assert_eq!(bills.len(), 2);
    assert_eq!(bills[0].congress, None);
    assert_eq!(bills[0].title.as_deref(), Some("A"));
    let action = bills[1].latest_action.as_ref().unwrap();
    assert_eq!(action.action_date.as_deref(), Some("2024-05-01"));
    assert_eq!(action.text.as_deref(), Some("Passed"));
}

#[test]
fn first_of_repeated_members_wins() {
    let body = obj(vec![(
        "bills",
        Json::Array(vec![obj(vec![("title", s("first")), ("title", s("second"))])]),
    )]);
    let bills = decode_body::<BillsResponse>(Some(&body)).unwrap().bills;
    assert_eq!(bills[0].title.as_deref(), Some("first"));
}

#[test]
fn law_detail_decodes_nested_laws() {
    let body = obj(vec![(
        "bill",
        obj(vec![
            ("congress", Json::Integer(118)),
            ("type", s("HR")),
            ("number", s("4984")),
            ("laws", Json::Array(vec![obj(vec![("number", s("118-51")), ("type", s("Public Law"))])])),
        ]),
    )]);
    let law = decode_body::<LawDetailResponse>(Some(&body)).unwrap().bill;
    let laws = law.laws.unwrap();
    assert_eq!(laws.len(), 1);
    assert_eq!(laws[0].number.as_deref(), Some("118-51"));
}

#[test]
fn house_vote_members_decode_ballots() {
    let body = obj(vec![(
        "houseRollCallVoteMemberVotes",
        obj(vec![
            ("congress", Json::Integer(118)),
            ("rollCallNumber", Json::Integer(17)),
            (
                "results",
                Json::Array(vec![obj(vec![("bioguideID", s("A000370")), ("voteCast", s("Yea"))])]),
            ),
        ]),
    )]);
    let vote = decode_body::<HouseVoteMembersResponse>(Some(&body)).unwrap().vote;
    assert_eq!(vote.congress, Some(118));
}

#[test]
fn decimal_strings() {
    assert_eq!(decimal_string(0), "0");
    assert_eq!(decimal_string(7), "7");
    assert_eq!(decimal_string(10), "10");
    assert_eq!(decimal_string(118), "118");
    assert_eq!(decimal_string(-1), "-1");
    assert_eq!(decimal_string(i64::MIN), "-9223372036854775808");
    assert_eq!(decimal_string(i64::MAX), "9223372036854775807");
}

#[test]
fn json_member_lookup() {
    let j = obj(vec![("a", Json::Null), ("b", Json::Integer(2))]);
    assert!(j.member("a").is_none());
    assert!(j.member("c").is_none());
    assert!(matches!(j.member("b"), Some(Json::Integer(2))));
    assert!(Json::Array(vec![]).member("b").is_none());
    assert!(j.is_object());
    assert!(!Json::Null.is_object());
}

#[test]
fn response_result_checks_status_before_body() {
    let body = obj(vec![("bills", Json::Array(vec![]))]);
    assert_eq!(response_result::<BillsResponse>(404, Some(&body)), Err(ApiError::ApiError(404)));
    assert_eq!(response_result::<BillsResponse>(500, None), Err(ApiError::ApiError(500)));
    assert!(response_result::<BillsResponse>(200, Some(&body)).unwrap().bills.is_empty());
    assert_eq!(response_result::<BillsResponse>(200, None), Err(ApiError::ShapeMismatch));
    let bad = obj(vec![]);
    assert_eq!(response_result::<BillsResponse>(201, Some(&bad)), Err(ApiError::ShapeMismatch));
}
