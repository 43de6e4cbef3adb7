use cdg_client::client::{CDGPythonClient, CongressApiClient, LawType};
use cdg_client::request::Request;

fn client() -> CDGPythonClient {
    CDGPythonClient::new("KEY".to_string())
}

fn pairs(r: &Request) -> Vec<(&str, &str)> {
    r.query.iter().map(|(k, v)| (k.as_str(), v.as_str())).collect()
}

#[test]
fn list_bills_without_options_sends_only_api_key() {
    let r = client().list_bills(None, None, None, None, None);
    assert_eq!(r.path, "/bill");
    assert_eq!(pairs(&r), vec![("api_key", "KEY")]);
}

#[test]
fn every_route_without_options_sends_only_api_key() {
    let c = client();
    let requests = vec![
        c.list_members(None, None, None, None, None, None),
        c.list_house_votes(None, None, None, None, None, None),
        c.get_bill(118, "hr".to_string(), 3076),
        c.get_member("P000197".to_string()),
        c.get_current_congress(None),
        c.list_committee_reports(None, None, None, None, None, None),
        c.list_members_by_state_district("CA".to_string(), 12, None, None),
        c.list_crs_reports(None, None, None, None, None),
        c.get_hearing(118, "house".to_string(), 52000, None),
    ];
    for r in &requests {
        assert_eq!(pairs(r), vec![("api_key", "KEY")]);
    }
}

#[test]
fn list_bills_sends_given_options_in_order() {
    let r = client().list_bills(
        Some("json".to_string()),
        Some(20),
        Some(250),
        Some("2024-01-01T00:00:00Z".to_string()),
        Some("2024-02-01T00:00:00Z".to_string()),
    );
    assert_eq!(
        pairs(&r),
        vec![
            ("api_key", "KEY"),
            ("format", "json"),
            ("offset", "20"),
            ("limit", "250"),
            ("fromDateTime", "2024-01-01T00:00:00Z"),
            ("toDateTime", "2024-02-01T00:00:00Z"),
        ]
    );
}

#[test]
fn list_bills_skips_options_left_out() {
    let r = client().list_bills(None, None, Some(5), None, None);
    assert_eq!(pairs(&r), vec![("api_key", "KEY"), ("limit", "5")]);
}

#[test]
fn list_members_sends_current_member_flag() {
    let c = client();
    let r = c.list_members(None, None, None, None, None, Some(true));
    assert_eq!(pairs(&r), vec![("api_key", "KEY"), ("currentMember", "true")]);
    let r = c.list_members_by_congress(117, None, None, None, Some(false));
    assert_eq!(r.path, "/member/congress/117");
    assert_eq!(pairs(&r), vec![("api_key", "KEY"), ("currentMember", "false")]);
}

#[test]
fn house_votes_send_sort_and_dates() {
    let r = client().list_house_votes_by_session(
        118,
        2,
        Some(0),
        None,
        Some("2024-01-01".to_string()),
        None,
        Some("updateDate+desc".to_string()),
        Some("xml".to_string()),
    );
    assert_eq!(r.path, "/house-vote/118/2");
    assert_eq!(
        pairs(&r),
        vec![
            ("api_key", "KEY"),
            ("offset", "0"),
            ("fromDateTime", "2024-01-01"),
            ("sort", "updateDate+desc"),
            ("format", "xml"),
        ]
    );
}

#[test]
fn negative_numbers_are_written_with_a_sign() {
    let c = client();
    assert_eq!(c.list_bills_by_congress(-5, None, None, None, None, None).path, "/bill/-5");
    assert_eq!(
        c.list_amendments_by_congress(i32::MIN, None, None, None, None, None).path,
        "/amendment/-2147483648"
    );
    let r = c.list_bills(None, Some(-1), Some(i32::MAX), None, None);
    assert_eq!(pairs(&r), vec![("api_key", "KEY"), ("offset", "-1"), ("limit", "2147483647")]);
}

#[test]
fn bill_routes_lower_case_the_bill_type() {
    let c = client();
    assert_eq!(c.get_bill(118, "HR".to_string(), 3076).path, "/bill/118/hr/3076");
    assert_eq!(
        c.get_bill_actions(118, "HJRes".to_string(), 7, None, None, None).path,
        "/bill/118/hjres/7/actions"
    );
    assert_eq!(
        c.list_bills_by_type(117, "S".to_string(), None, None, None, None, None).path,
        "/bill/117/s"
    );
    assert_eq!(
        c.get_related_bills(118, "hr".to_string(), 1, None, None, None).path,
        "/bill/118/hr/1/relatedbills"
    );
}

#[test]
fn bill_subresource_paths() {
    let c = client();
    let t = || "hr".to_string();
    assert_eq!(c.get_bill_amendments(118, t(), 3, None, None, None).path, "/bill/118/hr/3/amendments");
    assert_eq!(c.get_bill_committees(118, t(), 3, None, None, None).path, "/bill/118/hr/3/committees");
    assert_eq!(c.get_bill_cosponsors(118, t(), 3, None, None, None).path, "/bill/118/hr/3/cosponsors");
    assert_eq!(c.get_bill_subjects(118, t(), 3, None, None, None).path, "/bill/118/hr/3/subjects");
    assert_eq!(c.get_bill_summaries(118, t(), 3, None, None, None).path, "/bill/118/hr/3/summaries");
    assert_eq!(c.get_bill_text(118, t(), 3, None, None, None).path, "/bill/118/hr/3/text");
    assert_eq!(c.get_bill_titles(118, t(), 3, None, None, None).path, "/bill/118/hr/3/titles");
}

#[test]
fn get_law_path_ignores_bill_type_case() {
    let c = client();
    let upper = c.get_law(118, "HR".to_string(), "4984".to_string(), None);
    let lower = c.get_law(118, "hr".to_string(), "4984".to_string(), None);
    assert_eq!(upper.path, "/law/118/hr/4984");
    assert_eq!(upper, lower);
}

#[test]
fn get_law_lower_cases_long_bill_types() {
    let r = client().get_law(117, "SJRES".to_string(), "346".to_string(), Some("json".to_string()));
    assert_eq!(r.path, "/law/117/sjres/346");
    assert_eq!(pairs(&r), vec![("api_key", "KEY"), ("format", "json")]);
}

#[test]
fn hearing_paths_ignore_chamber_case() {
    let c = client();
    let a = c.get_hearing(118, "Senate".to_string(), 41, None);
    let b = c.get_hearing(118, "senate".to_string(), 41, None);
    assert_eq!(a.path, "/hearing/118/senate/41");
    assert_eq!(a, b);
    let a = c.list_hearings_by_chamber(118, "Senate".to_string(), None, None, None, None);
    let b = c.list_hearings_by_chamber(118, "senate".to_string(), None, None, None, None);
    assert_eq!(a.path, "/hearing/118/senate");
    assert_eq!(a, b);
}

#[test]
fn committee_routes_lower_case_the_chamber() {
    let c = client();
    assert_eq!(c.list_committees_by_chamber("House".to_string(), None, None, None).path, "/committee/house");
    assert_eq!(
        c.get_committee("Senate".to_string(), "ssju00".to_string(), None).path,
        "/committee/senate/ssju00"
    );
    assert_eq!(
        c.get_committee_bills("house".to_string(), "hsag00".to_string(), None, Some(10), None).path,
        "/committee/house/hsag00/bills"
    );
    assert_eq!(
        c.list_committees_by_congress_and_chamber(118, "JOINT".to_string(), None, None, None).path,
        "/committee/118/joint"
    );
    assert_eq!(
        c.get_committee_print_text(117, "House".to_string(), 48144, None).path,
        "/committee-print/117/house/48144/text"
    );
}

#[test]
fn list_laws_by_type_uses_law_kind_segment() {
    let c = client();
    assert_eq!(c.list_laws_by_type(118, LawType::Public, None, None, None).path, "/law/118/pub");
    assert_eq!(c.list_laws_by_type(118, LawType::Private, None, None, None).path, "/law/118/priv");
}

#[test]
fn other_route_paths() {
    let c = client();
    assert_eq!(c.list_committees_by_congress(118, None, None, None).path, "/committee/118");
    assert_eq!(c.get_congress(117, None).path, "/congress/117");
    assert_eq!(c.get_current_congress(None).path, "/congress/current");
    assert_eq!(c.get_house_vote_members(118, 1, 17, None, None, None).path, "/house-vote/118/1/17/members");
    assert_eq!(
        c.get_committee_report_text(116, "hrpt".to_string(), 617, None).path,
        "/committee-report/116/hrpt/617/text"
    );
    assert_eq!(c.get_nomination_nominees(118, "2005".to_string(), None, None, None).path, "/nomination/118/2005/nominees");
    assert_eq!(c.get_treaty(117, "3".to_string(), None).path, "/treaty/117/3");
    assert_eq!(c.list_congressional_records(None, None, None).path, "/daily-congressional-record");
    assert_eq!(c.list_summaries_by_congress(118, None, None, None).path, "/summaries/118");
    assert_eq!(c.get_crs_report("R47175".to_string(), None).path, "/crsreport/R47175");
    assert_eq!(
        c.get_member_cosponsored_legislation("L000174".to_string(), None, None, None).path,
        "/member/L000174/cosponsored-legislation"
    );
    assert_eq!(c.list_members_by_state("MI".to_string(), None, None, None).path, "/member/MI");
}

#[test]
fn request_url_joins_base_and_path() {
    let r = client().list_bills(None, None, None, None, None);
    assert_eq!(r.url(), "https://api.congress.gov/v3/bill");
}

#[test]
fn transport_client_puts_api_key_first() {
    let c = CongressApiClient::new("SECRET".to_string());
    let r = c.get("/bill", Some(vec![("api_key".to_string(), "other".to_string())]));
    assert_eq!(pairs(&r), vec![("api_key", "SECRET"), ("api_key", "other")]);
    let r = c.get("/congress", None);
    assert_eq!(pairs(&r), vec![("api_key", "SECRET")]);
    assert_eq!(r.base_url, "https://api.congress.gov/v3");
}

#[test]
fn chamber_and_bill_type_case_give_same_request() {
    let c = client();
    assert_eq!(
        c.list_bills_by_type(118, "HR".to_string(), None, None, None, None, None),
        c.list_bills_by_type(118, "hr".to_string(), None, None, None, None, None)
    );
    assert_eq!(
        c.list_committees_by_chamber("House".to_string(), None, None, None),
        c.list_committees_by_chamber("house".to_string(), None, None, None)
    );
    let a = c.list_committee_prints_by_chamber(117, "Senate".to_string(), None, None, None, None, None, None);
    let b = c.list_committee_prints_by_chamber(117, "senate".to_string(), None, None, None, None, None, None);
    assert_eq!(a.path, "/committee-print/117/senate");
    assert_eq!(a, b);
}
