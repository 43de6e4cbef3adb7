//! House roll-call votes, their party totals and member ballots.
use vstd::prelude::*;
use crate::decode::{
    Decode, text_ok, text_at, text_view, text_field, i32_ok, i32_at, i32_field, i64_ok, i64_at,
    i64_field, record_ok, record_is, record_field, opt_list_ok, opt_list_is, list_field,
    req_list_ok, req_list_is, req_list_field, req_record_ok, req_record_is, req_record_field,
};
use crate::json::Json;

verus! {

/// A House of Representatives roll call vote.
#[derive(Debug, Clone, PartialEq, Eq)]
pub struct HouseVote {
    pub congress: Option<i32>,
    pub identifier: Option<i64>,
    pub legislation_number: Option<String>,
    pub legislation_type: Option<String>,
    pub legislation_url: Option<String>,
    pub result: Option<String>,
    pub roll_call_number: Option<i32>,
    pub session_number: Option<i32>,
    pub source_data_url: Option<String>,
    pub start_date: Option<String>,
    pub update_date: Option<String>,
    pub url: Option<String>,
    pub vote_type: Option<String>,
}

impl Decode for HouseVote {
    open spec fn accepts(j: Json) -> bool {
        &&& j is Object
        &&& i32_ok(j, "congress"@)
        &&& i64_ok(j, "identifier"@)
        &&& text_ok(j, "legislationNumber"@)
        &&& text_ok(j, "legislationType"@)
        &&& text_ok(j, "legislationUrl"@)
        &&& text_ok(j, "result"@)
        &&& i32_ok(j, "rollCallNumber"@)
        &&& i32_ok(j, "sessionNumber"@)
        &&& text_ok(j, "sourceDataURL"@)
        &&& text_ok(j, "startDate"@)
        &&& text_ok(j, "updateDate"@)
        &&& text_ok(j, "url"@)
        &&& text_ok(j, "voteType"@)
    }

    open spec fn decoded_from(self, j: Json) -> bool {
        &&& self.congress == i32_at(j, "congress"@)
        &&& self.identifier == i64_at(j, "identifier"@)
        &&& text_view(self.legislation_number) == text_at(j, "legislationNumber"@)
        &&& text_view(self.legislation_type) == text_at(j, "legislationType"@)
        &&& text_view(self.legislation_url) == text_at(j, "legislationUrl"@)
        &&& text_view(self.result) == text_at(j, "result"@)
        &&& self.roll_call_number == i32_at(j, "rollCallNumber"@)
        &&& self.session_number == i32_at(j, "sessionNumber"@)
        &&& text_view(self.source_data_url) == text_at(j, "sourceDataURL"@)
        &&& text_view(self.start_date) == text_at(j, "startDate"@)
        &&& text_view(self.update_date) == text_at(j, "updateDate"@)
        &&& text_view(self.url) == text_at(j, "url"@)
        &&& text_view(self.vote_type) == text_at(j, "voteType"@)
    }

    fn decode(j: &Json) -> (r: Option<Self>) {
        if !j.is_object() {
            return None;
        }
        let congress = i32_field(j, "congress")?;
        let identifier = i64_field(j, "identifier")?;
        let legislation_number = text_field(j, "legislationNumber")?;
        let legislation_type = text_field(j, "legislationType")?;
        let legislation_url = text_field(j, "legislationUrl")?;
        let result = text_field(j, "result")?;
        let roll_call_number = i32_field(j, "rollCallNumber")?;
        let session_number = i32_field(j, "sessionNumber")?;
        let source_data_url = text_field(j, "sourceDataURL")?;
        let start_date = text_field(j, "startDate")?;
        let update_date = text_field(j, "updateDate")?;
        let url = text_field(j, "url")?;
        let vote_type = text_field(j, "voteType")?;
        Some(HouseVote {
            congress,
            identifier,
            legislation_number,
            legislation_type,
            legislation_url,
            result,
            roll_call_number,
            session_number,
            source_data_url,
            start_date,
            update_date,
            url,
            vote_type,
        })
    }
}

/// Party information.
#[derive(Debug, Clone, PartialEq, Eq)]
pub struct Party {
    pub name: Option<String>,
    pub party_type: Option<String>,
}

impl Decode for Party {
    open spec fn accepts(j: Json) -> bool {
        &&& j is Object
        &&& text_ok(j, "name"@)
        &&& text_ok(j, "type"@)
    }

    open spec fn decoded_from(self, j: Json) -> bool {
        &&& text_view(self.name) == text_at(j, "name"@)
        &&& text_view(self.party_type) == text_at(j, "type"@)
    }

    fn decode(j: &Json) -> (r: Option<Self>) {
        if !j.is_object() {
            return None;
        }
        let name = text_field(j, "name")?;
        let party_type = text_field(j, "type")?;
        Some(Party { name, party_type })
    }
}

/// Vote totals by party.
#[derive(Debug, Clone, PartialEq, Eq)]
pub struct VoteParty {
    pub nay_total: Option<i32>,
    pub not_voting_total: Option<i32>,
    pub present_total: Option<i32>,
    pub vote_party: Option<String>,
    pub yea_total: Option<i32>,
    pub party: Option<Party>,
}

impl Decode for VoteParty {
    open spec fn accepts(j: Json) -> bool {
        &&& j is Object
        &&& i32_ok(j, "nayTotal"@)
        &&& i32_ok(j, "notVotingTotal"@)
        &&& i32_ok(j, "presentTotal"@)
        &&& text_ok(j, "voteParty"@)
        &&& i32_ok(j, "yeaTotal"@)
        &&& record_ok::<Party>(j, "party"@)
    }

    open spec fn decoded_from(self, j: Json) -> bool {
        &&& self.nay_total == i32_at(j, "nayTotal"@)
        &&& self.not_voting_total == i32_at(j, "notVotingTotal"@)
        &&& self.present_total == i32_at(j, "presentTotal"@)
        &&& text_view(self.vote_party) == text_at(j, "voteParty"@)
        &&& self.yea_total == i32_at(j, "yeaTotal"@)
        &&& record_is(self.party, j, "party"@)
    }

    fn decode(j: &Json) -> (r: Option<Self>) {
        if !j.is_object() {
            return None;
        }
        let nay_total = i32_field(j, "nayTotal")?;
        let not_voting_total = i32_field(j, "notVotingTotal")?;
        let present_total = i32_field(j, "presentTotal")?;
        let vote_party = text_field(j, "voteParty")?;
        let yea_total = i32_field(j, "yeaTotal")?;
        let party = record_field(j, "party")?;
        Some(VoteParty { nay_total, not_voting_total, present_total, vote_party, yea_total, party })
    }
}

/// Detailed house vote information with party totals.
#[derive(Debug, Clone, PartialEq, Eq)]
pub struct HouseVoteDetail {
    pub congress: Option<i32>,
    pub identifier: Option<i64>,
    pub legislation_number: Option<String>,
    pub legislation_type: Option<String>,
    pub legislation_url: Option<String>,
    pub result: Option<String>,
    pub roll_call_number: Option<i32>,
    pub session_number: Option<i32>,
    pub source_data_url: Option<String>,
    pub start_date: Option<String>,
    pub update_date: Option<String>,
    pub vote_type: Option<String>,
    pub vote_party_total: Option<Vec<VoteParty>>,
    pub vote_question: Option<String>,
}

impl Decode for HouseVoteDetail {
    open spec fn accepts(j: Json) -> bool {
        &&& j is Object
        &&& i32_ok(j, "congress"@)
        &&& i64_ok(j, "identifier"@)
        &&& text_ok(j, "legislationNumber"@)
        &&& text_ok(j, "legislationType"@)
        &&& text_ok(j, "legislationUrl"@)
        &&& text_ok(j, "result"@)
        &&& i32_ok(j, "rollCallNumber"@)
        &&& i32_ok(j, "sessionNumber"@)
        &&& text_ok(j, "sourceDataURL"@)
        &&& text_ok(j, "startDate"@)
        &&& text_ok(j, "updateDate"@)
        &&& text_ok(j, "voteType"@)
        &&& opt_list_ok::<VoteParty>(j, "votePartyTotal"@)
        &&& text_ok(j, "voteQuestion"@)
    }

    open spec fn decoded_from(self, j: Json) -> bool {
        &&& self.congress == i32_at(j, "congress"@)
        &&& self.identifier == i64_at(j, "identifier"@)
        &&& text_view(self.legislation_number) == text_at(j, "legislationNumber"@)
        &&& text_view(self.legislation_type) == text_at(j, "legislationType"@)
        &&& text_view(self.legislation_url) == text_at(j, "legislationUrl"@)
        &&& text_view(self.result) == text_at(j, "result"@)
        &&& self.roll_call_number == i32_at(j, "rollCallNumber"@)
        &&& self.session_number == i32_at(j, "sessionNumber"@)
        &&& text_view(self.source_data_url) == text_at(j, "sourceDataURL"@)
        &&& text_view(self.start_date) == text_at(j, "startDate"@)
        &&& text_view(self.update_date) == text_at(j, "updateDate"@)
        &&& text_view(self.vote_type) == text_at(j, "voteType"@)
        &&& opt_list_is(self.vote_party_total, j, "votePartyTotal"@)
        &&& text_view(self.vote_question) == text_at(j, "voteQuestion"@)
    }

    fn decode(j: &Json) -> (r: Option<Self>) {
        if !j.is_object() {
            return None;
        }
        let congress = i32_field(j, "congress")?;
        let identifier = i64_field(j, "identifier")?;
        let legislation_number = text_field(j, "legislationNumber")?;
        let legislation_type = text_field(j, "legislationType")?;
        let legislation_url = text_field(j, "legislationUrl")?;
        let result = text_field(j, "result")?;
        let roll_call_number = i32_field(j, "rollCallNumber")?;
        let session_number = i32_field(j, "sessionNumber")?;
        let source_data_url = text_field(j, "sourceDataURL")?;
        let start_date = text_field(j, "startDate")?;
        let update_date = text_field(j, "updateDate")?;
        let vote_type = text_field(j, "voteType")?;
        let vote_party_total = list_field(j, "votePartyTotal")?;
        let vote_question = text_field(j, "voteQuestion")?;
        Some(HouseVoteDetail {
            congress,
            identifier,
            legislation_number,
            legislation_type,
            legislation_url,
            result,
            roll_call_number,
            session_number,
            source_data_url,
            start_date,
            update_date,
            vote_type,
            vote_party_total,
            vote_question,
        })
    }
}

/// How a member voted.
#[derive(Debug, Clone, PartialEq, Eq)]
pub struct MemberVote {
    pub bioguide_id: Option<String>,
    pub first_name: Option<String>,
    pub last_name: Option<String>,
    pub vote_cast: Option<String>,
    pub vote_party: Option<String>,
    pub vote_state: Option<String>,
}

impl Decode for MemberVote {
    open spec fn accepts(j: Json) -> bool {
        &&& j is Object
        &&& text_ok(j, "bioguideID"@)
        &&& text_ok(j, "firstName"@)
        &&& text_ok(j, "lastName"@)
        &&& text_ok(j, "voteCast"@)
        &&& text_ok(j, "voteParty"@)
        &&& text_ok(j, "voteState"@)
    }

    open spec fn decoded_from(self, j: Json) -> bool {
        &&& text_view(self.bioguide_id) == text_at(j, "bioguideID"@)
        &&& text_view(self.first_name) == text_at(j, "firstName"@)
        &&& text_view(self.last_name) == text_at(j, "lastName"@)
        &&& text_view(self.vote_cast) == text_at(j, "voteCast"@)
        &&& text_view(self.vote_party) == text_at(j, "voteParty"@)
        &&& text_view(self.vote_state) == text_at(j, "voteState"@)
    }

    fn decode(j: &Json) -> (r: Option<Self>) {
        if !j.is_object() {
            return None;
        }
        let bioguide_id = text_field(j, "bioguideID")?;
        let first_name = text_field(j, "firstName")?;
        let last_name = text_field(j, "lastName")?;
        let vote_cast = text_field(j, "voteCast")?;
        let vote_party = text_field(j, "voteParty")?;
        let vote_state = text_field(j, "voteState")?;
        Some(MemberVote { bioguide_id, first_name, last_name, vote_cast, vote_party, vote_state })
    }
}

/// House vote with member voting details.
#[derive(Debug, Clone, PartialEq, Eq)]
pub struct HouseVoteMembers {
    pub congress: Option<i32>,
    pub identifier: Option<i64>,
    pub legislation_number: Option<String>,
    pub legislation_type: Option<String>,
    pub legislation_url: Option<String>,
    pub result: Option<String>,
    pub roll_call_number: Option<i32>,
    pub session_number: Option<i32>,
    pub source_data_url: Option<String>,
    pub start_date: Option<String>,
    pub update_date: Option<String>,
    pub vote_type: Option<String>,
    pub results: Option<Vec<MemberVote>>,
    pub vote_question: Option<String>,
}

impl Decode for HouseVoteMembers {
    open spec fn accepts(j: Json) -> bool {
        &&& j is Object
        &&& i32_ok(j, "congress"@)
        &&& i64_ok(j, "identifier"@)
        &&& text_ok(j, "legislationNumber"@)
        &&& text_ok(j, "legislationType"@)
        &&& text_ok(j, "legislationUrl"@)
        &&& text_ok(j, "result"@)
        &&& i32_ok(j, "rollCallNumber"@)
        &&& i32_ok(j, "sessionNumber"@)
        &&& text_ok(j, "sourceDataURL"@)
        &&& text_ok(j, "startDate"@)
        &&& text_ok(j, "updateDate"@)
        &&& text_ok(j, "voteType"@)
        &&& opt_list_ok::<MemberVote>(j, "results"@)
        &&& text_ok(j, "voteQuestion"@)
    }

    open spec fn decoded_from(self, j: Json) -> bool {
        &&& self.congress == i32_at(j, "congress"@)
        &&& self.identifier == i64_at(j, "identifier"@)
        &&& text_view(self.legislation_number) == text_at(j, "legislationNumber"@)
        &&& text_view(self.legislation_type) == text_at(j, "legislationType"@)
        &&& text_view(self.legislation_url) == text_at(j, "legislationUrl"@)
        &&& text_view(self.result) == text_at(j, "result"@)
        &&& self.roll_call_number == i32_at(j, "rollCallNumber"@)
        &&& self.session_number == i32_at(j, "sessionNumber"@)
        &&& text_view(self.source_data_url) == text_at(j, "sourceDataURL"@)
        &&& text_view(self.start_date) == text_at(j, "startDate"@)
        &&& text_view(self.update_date) == text_at(j, "updateDate"@)
        &&& text_view(self.vote_type) == text_at(j, "voteType"@)
        &&& opt_list_is(self.results, j, "results"@)
        &&& text_view(self.vote_question) == text_at(j, "voteQuestion"@)
    }

    fn decode(j: &Json) -> (r: Option<Self>) {
        if !j.is_object() {
            return None;
        }
        let congress = i32_field(j, "congress")?;
        let identifier = i64_field(j, "identifier")?;
        let legislation_number = text_field(j, "legislationNumber")?;
        let legislation_type = text_field(j, "legislationType")?;
        let legislation_url = text_field(j, "legislationUrl")?;
        let result = text_field(j, "result")?;
        let roll_call_number = i32_field(j, "rollCallNumber")?;
        let session_number = i32_field(j, "sessionNumber")?;
        let source_data_url = text_field(j, "sourceDataURL")?;
        let start_date = text_field(j, "startDate")?;
        let update_date = text_field(j, "updateDate")?;
        let vote_type = text_field(j, "voteType")?;
        let results = list_field(j, "results")?;
        let vote_question = text_field(j, "voteQuestion")?;
        Some(HouseVoteMembers {
            congress,
            identifier,
            legislation_number,
            legislation_type,
            legislation_url,
            result,
            roll_call_number,
            session_number,
            source_data_url,
            start_date,
            update_date,
            vote_type,
            results,
            vote_question,
        })
    }
}

/// Envelope of list of house votes.
#[derive(Debug, Clone, PartialEq, Eq)]
pub struct HouseVotesResponse {
    pub votes: Vec<HouseVote>,
}

impl Decode for HouseVotesResponse {
    open spec fn accepts(j: Json) -> bool {
        &&& j is Object
        &&& req_list_ok::<HouseVote>(j, "houseRollCallVotes"@)
    }

    open spec fn decoded_from(self, j: Json) -> bool {
        &&& req_list_is(self.votes, j, "houseRollCallVotes"@)
    }

    fn decode(j: &Json) -> (r: Option<Self>) {
        if !j.is_object() {
            return None;
        }
        let votes = req_list_field(j, "houseRollCallVotes")?;
        Some(HouseVotesResponse { votes })
    }
}

/// Envelope of a single house vote detail.
#[derive(Debug, Clone, PartialEq, Eq)]
pub struct HouseVoteDetailResponse {
    pub vote: HouseVoteDetail,
}

impl Decode for HouseVoteDetailResponse {
    open spec fn accepts(j: Json) -> bool {
        &&& j is Object
        &&& req_record_ok::<HouseVoteDetail>(j, "houseRollCallVote"@)
    }

    open spec fn decoded_from(self, j: Json) -> bool {
        &&& req_record_is(self.vote, j, "houseRollCallVote"@)
    }

    fn decode(j: &Json) -> (r: Option<Self>) {
        if !j.is_object() {
            return None;
        }
        let vote = req_record_field(j, "houseRollCallVote")?;
        Some(HouseVoteDetailResponse { vote })
    }
}

/// Envelope of house vote with member votes.
#[derive(Debug, Clone, PartialEq, Eq)]
pub struct HouseVoteMembersResponse {
    pub vote: HouseVoteMembers,
}

impl Decode for HouseVoteMembersResponse {
    open spec fn accepts(j: Json) -> bool {
        &&& j is Object
        &&& req_record_ok::<HouseVoteMembers>(j, "houseRollCallVoteMemberVotes"@)
    }

    open spec fn decoded_from(self, j: Json) -> bool {
        &&& req_record_is(self.vote, j, "houseRollCallVoteMemberVotes"@)
    }

    fn decode(j: &Json) -> (r: Option<Self>) {
        if !j.is_object() {
            return None;
        }
        let vote = req_record_field(j, "houseRollCallVoteMemberVotes")?;
        Some(HouseVoteMembersResponse { vote })
    }
}

} // verus!
