use cdg_client::client::{decode_body, ApiError};
use cdg_client::decode::Decode;
use cdg_client::json::Json;

use cdg_client::bills::{
    BillsResponse, BillDetailResponse, ActionsResponse, AmendmentsResponse, CommitteesResponse,
    CosponsorsResponse, RelatedBillsResponse, SubjectsResponse, SummariesResponse,
    TextVersionsResponse, TitlesResponse,
};
use cdg_client::members::{
    MembersResponse, MemberResponse, SponsoredLegislationResponse,
    CosponsoredLegislationResponse,
};
use cdg_client::sessions::{CongressesResponse, CongressResponse};
use cdg_client::house_votes::{
    HouseVotesResponse, HouseVoteDetailResponse, HouseVoteMembersResponse,
};
use cdg_client::committees::{
    CommitteesResponse as CommitteeListResponse, CommitteeDetailResponse,
    CommitteeBillsResponse, CommitteeReportsResponse, CommitteeReportDetailResponse,
    CommitteeReportTextResponse, CommitteePrintsResponse, CommitteePrintDetailResponse,
    CommitteePrintTextResponse,
};
use cdg_client::nominations::{NominationsResponse, NominationDetailResponse, NomineesResponse};
use cdg_client::treaties::{TreatiesResponse, TreatyDetailResponse};
use cdg_client::hearings::{HearingsResponse, HearingDetailResponse};
use cdg_client::congressional_record::DailyCongressionalRecordsResponse;
use cdg_client::laws::{LawsResponse, LawDetailResponse};
use cdg_client::summaries::SummariesListResponse;
use cdg_client::crsreport::{CrsReportsResponse, CrsReportDetailResponse};

fn wrap(key: &str, v: Json) -> Json {
    Json::Object(vec![(key.to_string(), v)])
}

fn decodes<T: Decode + std::fmt::Debug>(body: &Json) -> bool {
    match decode_body::<T>(Some(body)) {
        Ok(_) => true,
        Err(e) => {
            assert_eq!(e, ApiError::ShapeMismatch);
            false
        }
    }
}

#[test]
fn bills_envelopes_need_their_member() {
    assert!(decodes::<BillsResponse>(&wrap("bills", Json::Array(vec![]))));
    assert!(!decodes::<BillsResponse>(&Json::Object(vec![])));
    assert!(decodes::<BillDetailResponse>(&wrap("bill", Json::Object(vec![]))));
    assert!(!decodes::<BillDetailResponse>(&wrap("bill", Json::Array(vec![]))));
    assert!(decodes::<ActionsResponse>(&wrap("actions", Json::Array(vec![]))));
    assert!(!decodes::<ActionsResponse>(&Json::Object(vec![])));
    assert!(decodes::<AmendmentsResponse>(&wrap("amendments", Json::Array(vec![]))));
    assert!(!decodes::<AmendmentsResponse>(&Json::Object(vec![])));
    assert!(decodes::<CommitteesResponse>(&wrap("committees", Json::Array(vec![]))));
    assert!(!decodes::<CommitteesResponse>(&Json::Object(vec![])));
    assert!(decodes::<CosponsorsResponse>(&wrap("cosponsors", Json::Array(vec![]))));
    assert!(!decodes::<CosponsorsResponse>(&Json::Object(vec![])));
    assert!(decodes::<RelatedBillsResponse>(&wrap("relatedBills", Json::Array(vec![]))));
    assert!(decodes::<RelatedBillsResponse>(&Json::Object(vec![])));
    assert!(decodes::<SubjectsResponse>(&wrap("legislativeSubjects", Json::Array(vec![]))));
    assert!(decodes::<SubjectsResponse>(&Json::Object(vec![])));
    assert!(decodes::<SummariesResponse>(&wrap("summaries", Json::Array(vec![]))));
    assert!(!decodes::<SummariesResponse>(&Json::Object(vec![])));
    assert!(decodes::<TextVersionsResponse>(&wrap("textVersions", Json::Array(vec![]))));
    assert!(!decodes::<TextVersionsResponse>(&Json::Object(vec![])));
    assert!(decodes::<TitlesResponse>(&wrap("titles", Json::Array(vec![]))));
    assert!(!decodes::<TitlesResponse>(&Json::Object(vec![])));
}

#[test]
fn members_envelopes_need_their_member() {
    assert!(decodes::<MembersResponse>(&wrap("members", Json::Array(vec![]))));
    assert!(!decodes::<MembersResponse>(&Json::Object(vec![])));
    assert!(decodes::<MemberResponse>(&wrap("member", Json::Object(vec![]))));
    assert!(!decodes::<MemberResponse>(&wrap("member", Json::Array(vec![]))));
    assert!(decodes::<SponsoredLegislationResponse>(&wrap("sponsoredLegislation", Json::Array(vec![]))));
    assert!(!decodes::<SponsoredLegislationResponse>(&Json::Object(vec![])));
    assert!(decodes::<CosponsoredLegislationResponse>(&wrap("cosponsoredLegislation", Json::Array(vec![]))));
    assert!(decodes::<CosponsoredLegislationResponse>(&Json::Object(vec![])));
}

#[test]
fn sessions_envelopes_need_their_member() {
    assert!(decodes::<CongressesResponse>(&wrap("congresses", Json::Array(vec![]))));
    assert!(!decodes::<CongressesResponse>(&Json::Object(vec![])));
    assert!(decodes::<CongressResponse>(&wrap("congress", Json::Object(vec![]))));
    assert!(!decodes::<CongressResponse>(&wrap("congress", Json::Array(vec![]))));
}

#[test]
fn house_votes_envelopes_need_their_member() {
    assert!(decodes::<HouseVotesResponse>(&wrap("houseRollCallVotes", Json::Array(vec![]))));
    assert!(!decodes::<HouseVotesResponse>(&Json::Object(vec![])));
    assert!(decodes::<HouseVoteDetailResponse>(&wrap("houseRollCallVote", Json::Object(vec![]))));
    assert!(!decodes::<HouseVoteDetailResponse>(&wrap("houseRollCallVote", Json::Array(vec![]))));
    assert!(decodes::<HouseVoteMembersResponse>(&wrap("houseRollCallVoteMemberVotes", Json::Object(vec![]))));
    assert!(!decodes::<HouseVoteMembersResponse>(&wrap("houseRollCallVoteMemberVotes", Json::Array(vec![]))));
}

#[test]
fn committees_envelopes_need_their_member() {
    assert!(decodes::<CommitteeListResponse>(&wrap("committees", Json::Array(vec![]))));
    assert!(!decodes::<CommitteeListResponse>(&Json::Object(vec![])));
    assert!(decodes::<CommitteeDetailResponse>(&wrap("committee", Json::Object(vec![]))));
    assert!(!decodes::<CommitteeDetailResponse>(&wrap("committee", Json::Array(vec![]))));
    assert!(decodes::<CommitteeBillsResponse>(&wrap("bills", Json::Array(vec![]))));
    assert!(!decodes::<CommitteeBillsResponse>(&Json::Object(vec![])));
    assert!(decodes::<CommitteeReportsResponse>(&wrap("reports", Json::Array(vec![]))));
    assert!(!decodes::<CommitteeReportsResponse>(&Json::Object(vec![])));
    assert!(decodes::<CommitteeReportDetailResponse>(&wrap("report", Json::Object(vec![]))));
    assert!(!decodes::<CommitteeReportDetailResponse>(&wrap("report", Json::Array(vec![]))));
    assert!(decodes::<CommitteeReportTextResponse>(&wrap("text", Json::Array(vec![]))));
    assert!(!decodes::<CommitteeReportTextResponse>(&Json::Object(vec![])));
    assert!(decodes::<CommitteePrintsResponse>(&wrap("committeePrints", Json::Array(vec![]))));
    assert!(!decodes::<CommitteePrintsResponse>(&Json::Object(vec![])));
    assert!(decodes::<CommitteePrintDetailResponse>(&wrap("committeePrint", Json::Object(vec![]))));
    assert!(!decodes::<CommitteePrintDetailResponse>(&wrap("committeePrint", Json::Array(vec![]))));
    assert!(decodes::<CommitteePrintTextResponse>(&wrap("text", Json::Array(vec![]))));
    assert!(!decodes::<CommitteePrintTextResponse>(&Json::Object(vec![])));
}

#[test]
fn nominations_envelopes_need_their_member() {
    assert!(decodes::<NominationsResponse>(&wrap("nominations", Json::Array(vec![]))));
    assert!(!decodes::<NominationsResponse>(&Json::Object(vec![])));
    assert!(decodes::<NominationDetailResponse>(&wrap("nomination", Json::Object(vec![]))));
    assert!(!decodes::<NominationDetailResponse>(&wrap("nomination", Json::Array(vec![]))));
    assert!(decodes::<NomineesResponse>(&wrap("nominees", Json::Array(vec![]))));
    assert!(!decodes::<NomineesResponse>(&Json::Object(vec![])));
}

#[test]
fn treaties_envelopes_need_their_member() {
    assert!(decodes::<TreatiesResponse>(&wrap("treaties", Json::Array(vec![]))));
    assert!(!decodes::<TreatiesResponse>(&Json::Object(vec![])));
    assert!(decodes::<TreatyDetailResponse>(&wrap("treaty", Json::Object(vec![]))));
    assert!(!decodes::<TreatyDetailResponse>(&wrap("treaty", Json::Array(vec![]))));
}

#[test]
fn hearings_envelopes_need_their_member() {
    assert!(decodes::<HearingsResponse>(&wrap("hearings", Json::Array(vec![]))));
    assert!(!decodes::<HearingsResponse>(&Json::Object(vec![])));
    assert!(decodes::<HearingDetailResponse>(&wrap("hearing", Json::Object(vec![]))));
    assert!(!decodes::<HearingDetailResponse>(&wrap("hearing", Json::Array(vec![]))));
}

#[test]
fn congressional_record_envelopes_need_their_member() {
    assert!(decodes::<DailyCongressionalRecordsResponse>(&wrap("dailyCongressionalRecord", Json::Array(vec![]))));
    assert!(!decodes::<DailyCongressionalRecordsResponse>(&Json::Object(vec![])));
}

#[test]
fn laws_envelopes_need_their_member() {
    assert!(decodes::<LawsResponse>(&wrap("bills", Json::Array(vec![]))));
    assert!(!decodes::<LawsResponse>(&Json::Object(vec![])));
    assert!(decodes::<LawDetailResponse>(&wrap("bill", Json::Object(vec![]))));
    assert!(!decodes::<LawDetailResponse>(&wrap("bill", Json::Array(vec![]))));
}

#[test]
fn summaries_envelopes_need_their_member() {
    assert!(decodes::<SummariesListResponse>(&wrap("summaries", Json::Array(vec![]))));
    assert!(!decodes::<SummariesListResponse>(&Json::Object(vec![])));
}

#[test]
fn crsreport_envelopes_need_their_member() {
    assert!(decodes::<CrsReportsResponse>(&wrap("CRSReports", Json::Array(vec![]))));
    assert!(!decodes::<CrsReportsResponse>(&Json::Object(vec![])));
    assert!(decodes::<CrsReportDetailResponse>(&wrap("CRSReport", Json::Object(vec![]))));
    assert!(!decodes::<CrsReportDetailResponse>(&wrap("CRSReport", Json::Array(vec![]))));
}
