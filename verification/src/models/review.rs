//! A review of one version.

use vstd::prelude::*;
use crate::models::address::url_joined;
use crate::models::common::{AppConfig, AppResult, Timestamp};
use crate::models::oid::{encode_hex, ObjectId};
use crate::models::request::{entity_path, is_request, Method, Payload, Request};

verus! {

/// What one referee said of one version.
#[derive(Clone, Debug, PartialEq, Eq)]
pub struct Review {
    pub _id: ObjectId,
    pub version_id: ObjectId,
    pub reviewed_at: Timestamp,
    pub reviewer_id: Option<ObjectId>,
    pub judgement: bool,
    pub criticism: String,
}

impl Review {
    /// The request that fetches the review `id`, with the user's credentials.
    pub fn try_get(cfg: &AppConfig, id: ObjectId) -> (r: AppResult<Request>)
        ensures
            is_request(
                r,
                Method::Get,
                url_joined(cfg@, "reviews/"@ + encode_hex(id@)),
                true,
                Payload::Empty,
            ),
    {
        let path = entity_path("reviews/", &id);
        Request::to_path(cfg, Method::Get, path.as_str(), true, Payload::Empty)
    }
}

} // verus!
