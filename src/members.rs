//! Members of Congress and the legislation they sponsor.
use vstd::prelude::*;
use crate::decode::{
    Decode, text_ok, text_at, text_view, text_field, opt_list_ok, opt_list_is, list_field,
    req_list_ok, req_list_is, req_list_field, req_record_ok, req_record_is, req_record_field,
};
use crate::json::{Json, member};
use crate::bills::Bill;

verus! {

/// A congressional member (used as Sponsor in bills).
#[derive(Debug, Clone, PartialEq, Eq)]
pub struct Sponsor {
    pub bioguide_id: Option<String>,
    pub first_name: Option<String>,
    pub last_name: Option<String>,
    pub full_name: Option<String>,
    pub state: Option<String>,
    pub party: Option<String>,
    pub url: Option<String>,
}

impl Decode for Sponsor {
    open spec fn accepts(j: Json) -> bool {
        &&& j is Object
        &&& text_ok(j, "bioguideId"@)
        &&& text_ok(j, "firstName"@)
        &&& text_ok(j, "lastName"@)
        &&& text_ok(j, "fullName"@)
        &&& text_ok(j, "state"@)
        &&& text_ok(j, "party"@)
        &&& text_ok(j, "url"@)
    }

    open spec fn decoded_from(self, j: Json) -> bool {
        &&& text_view(self.bioguide_id) == text_at(j, "bioguideId"@)
        &&& text_view(self.first_name) == text_at(j, "firstName"@)
        &&& text_view(self.last_name) == text_at(j, "lastName"@)
        &&& text_view(self.full_name) == text_at(j, "fullName"@)
        &&& text_view(self.state) == text_at(j, "state"@)
        &&& text_view(self.party) == text_at(j, "party"@)
        &&& text_view(self.url) == text_at(j, "url"@)
    }

    fn decode(j: &Json) -> (r: Option<Self>) {
        if !j.is_object() {
            return None;
        }
        let bioguide_id = text_field(j, "bioguideId")?;
        let first_name = text_field(j, "firstName")?;
        let last_name = text_field(j, "lastName")?;
        let full_name = text_field(j, "fullName")?;
        let state = text_field(j, "state")?;
        let party = text_field(j, "party")?;
        let url = text_field(j, "url")?;
        Some(Sponsor { bioguide_id, first_name, last_name, full_name, state, party, url })
    }
}

/// Envelope of list of members.
#[derive(Debug, Clone, PartialEq, Eq)]
pub struct MembersResponse {
    pub members: Vec<Sponsor>,
}

impl Decode for MembersResponse {
    open spec fn accepts(j: Json) -> bool {
        &&& j is Object
        &&& req_list_ok::<Sponsor>(j, "members"@)
    }

    open spec fn decoded_from(self, j: Json) -> bool {
        &&& req_list_is(self.members, j, "members"@)
    }

    fn decode(j: &Json) -> (r: Option<Self>) {
        if !j.is_object() {
            return None;
        }
        let members = req_list_field(j, "members")?;
        Some(MembersResponse { members })
    }
}

/// Envelope of a single member.
#[derive(Debug, Clone, PartialEq, Eq)]
pub struct MemberResponse {
    pub member: Sponsor,
}

impl Decode for MemberResponse {
    open spec fn accepts(j: Json) -> bool {
        &&& j is Object
        &&& req_record_ok::<Sponsor>(j, "member"@)
    }

    open spec fn decoded_from(self, j: Json) -> bool {
        &&& req_record_is(self.member, j, "member"@)
    }

    fn decode(j: &Json) -> (r: Option<Self>) {
        if !j.is_object() {
            return None;
        }
        let member = req_record_field(j, "member")?;
        Some(MemberResponse { member })
    }
}

/// Envelope of sponsored legislation.
#[derive(Debug, Clone, PartialEq, Eq)]
pub struct SponsoredLegislationResponse {
    pub sponsored_legislation: Vec<Bill>,
}

impl Decode for SponsoredLegislationResponse {
    open spec fn accepts(j: Json) -> bool {
        &&& j is Object
        &&& req_list_ok::<Bill>(j, "sponsoredLegislation"@)
    }

    open spec fn decoded_from(self, j: Json) -> bool {
        &&& req_list_is(self.sponsored_legislation, j, "sponsoredLegislation"@)
    }

    fn decode(j: &Json) -> (r: Option<Self>) {
        if !j.is_object() {
            return None;
        }
        let sponsored_legislation = req_list_field(j, "sponsoredLegislation")?;
        Some(SponsoredLegislationResponse { sponsored_legislation })
    }
}

/// Envelope of a member's cosponsored legislation; the list may be missing.
#[derive(Debug, Clone, PartialEq, Eq)]
pub struct CosponsoredLegislationResponse {
    pub cosponsored_legislation: Option<Vec<Bill>>,
}

impl Decode for CosponsoredLegislationResponse {
    open spec fn accepts(j: Json) -> bool {
        &&& j is Object
        &&& opt_list_ok::<Bill>(j, "cosponsoredLegislation"@)
    }

    open spec fn decoded_from(self, j: Json) -> bool {
        &&& opt_list_is(self.cosponsored_legislation, j, "cosponsoredLegislation"@)
    }

    fn decode(j: &Json) -> (r: Option<Self>) {
        if !j.is_object() {
            return None;
        }
        let cosponsored_legislation = list_field(j, "cosponsoredLegislation")?;
        Some(CosponsoredLegislationResponse { cosponsored_legislation })
    }
}

impl CosponsoredLegislationResponse {
    /// The cosponsored bills; an answer that leaves the list out gives an empty list.
    pub fn into_cosponsored_legislation(self) -> (r: Vec<Bill>)
        ensures
            r@ == match self.cosponsored_legislation {
                Some(v) => v@,
                None => Seq::<Bill>::empty(),
            },
    {
        match self.cosponsored_legislation {
            Some(v) => v,
            None => Vec::new(),
        }
    }
}

/// A body that leaves out `cosponsoredLegislation` still decodes, with no list, so the
/// cosponsored bills are empty.
pub proof fn lemma_missing_cosponsored_is_empty(j: Json, env: CosponsoredLegislationResponse)
    requires
        j is Object,
        member(j, "cosponsoredLegislation"@).is_none(),
    ensures
        CosponsoredLegislationResponse::accepts(j),
        env.decoded_from(j) ==> env.cosponsored_legislation.is_none(),
{
}

} // verus!
