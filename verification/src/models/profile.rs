//! Users as others see them, and as they see themselves.

use vstd::prelude::*;
use crate::models::address::url_joined;
use crate::models::common::{AppConfig, AppResult, Timestamp};
use crate::models::oid::{encode_hex, ObjectId};
use crate::models::request::{entity_path, is_request, Method, Payload, Request};

verus! {

/// What everybody may know of a user.
#[derive(Debug, PartialEq, Eq)]
pub struct PublicProfile {
    pub _id: ObjectId,
    pub email: String,
    pub avatar_id: Option<ObjectId>,
    pub joining_at: Timestamp,
    pub name: String,
}

impl Clone for PublicProfile {
    fn clone(&self) -> (r: Self)
        ensures
            r == *self,
    {
        PublicProfile {
            _id: self._id,
            email: self.email.clone(),
            avatar_id: self.avatar_id,
            joining_at: self.joining_at,
            name: self.name.clone(),
        }
    }
}

/// The identifiers of some profiles, in their order.
pub open spec fn profile_ids(profiles: Seq<PublicProfile>) -> Seq<ObjectId> {
    profiles.map_values(|p: PublicProfile| p._id)
}

impl PublicProfile {
    /// The identifiers of some profiles, in their order.
    pub fn ids(profiles: &Vec<PublicProfile>) -> (ids: Vec<ObjectId>)
        ensures
            ids@ == profile_ids(profiles@),
    {
        let mut ids: Vec<ObjectId> = Vec::new();
        let mut i: usize = 0;
        while i < profiles.len()
            invariant
                i <= profiles.len(),
                ids@ == profile_ids(profiles@.take(i as int)),
            decreases profiles.len() - i,
        {
            ids.push(profiles[i]._id);
            assert(profiles@.take(i + 1) =~= profiles@.take(i as int).push(profiles@[i as int]));
            assert(ids@ =~= profile_ids(profiles@.take(i + 1)));
            i += 1;
        }
        assert(profiles@.take(profiles.len() as int) =~= profiles@);
        ids
    }

    /// The request that fetches the profile `id`. Profiles are public: it
    /// carries no credentials.
    pub fn try_get(cfg: &AppConfig, id: ObjectId) -> (r: AppResult<Request>)
        ensures
            is_request(
                r,
                Method::Get,
                url_joined(cfg@, "profiles/"@ + encode_hex(id@)),
                false,
                Payload::Empty,
            ),
    {
        let path = entity_path("profiles/", &id);
        Request::to_path(cfg, Method::Get, path.as_str(), false, Payload::Empty)
    }
}

/// What a user has chosen to be told, and how.
#[derive(Clone, Copy, Debug, PartialEq, Eq, Structural)]
pub struct Setting {
    pub email_notice: bool,
    pub push: bool,
}

impl Default for Setting {
    /// Until a user says otherwise, every notice is on.
    fn default() -> (r: Self)
        ensures
            r == (Setting { email_notice: true, push: true }),
    {
        Setting { email_notice: true, push: true }
    }
}

/// A user's own profile: the public part and the settings.
#[derive(Clone, Debug, PartialEq, Eq)]
pub struct Profile {
    pub public_profile: PublicProfile,
    pub setting: Setting,
}

} // verus!
