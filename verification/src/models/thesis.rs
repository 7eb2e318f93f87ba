//! A thesis and what identifies it.

use vstd::prelude::*;
use crate::models::address::url_joined;
use crate::models::common::{AppConfig, AppResult, Timestamp};
use crate::models::oid::{encode_hex, ObjectId};
use crate::models::request::{entity_path, is_request, Method, Payload, Request};

verus! {

/// What the server assigns to a thesis.
#[derive(Clone, Debug, PartialEq, Eq)]
pub struct ThesisId {
    pub _id: ObjectId,
    pub owner_id: ObjectId,
    pub is_passed: bool,
    pub created_at: Timestamp,
}

/// A snapshot of a thesis: authors and keywords stand in the order in which
/// they were entered.
#[derive(Clone, Debug, PartialEq, Eq)]
pub struct Thesis {
    pub id: ThesisId,
    pub author_ids: Vec<ObjectId>,
    pub doi: Option<String>,
    pub title: String,
    pub abstraction: String,
    pub keywords: Vec<String>,
    pub languages: Vec<String>,
}

impl Thesis {
    /// The request that fetches the thesis `id`. Theses are public: it carries
    /// no credentials.
    pub fn try_get(cfg: &AppConfig, id: ObjectId) -> (r: AppResult<Request>)
        ensures
            is_request(
                r,
                Method::Get,
                url_joined(cfg@, "theses/"@ + encode_hex(id@)),
                false,
                Payload::Empty,
            ),
    {
        let path = entity_path("theses/", &id);
        Request::to_path(cfg, Method::Get, path.as_str(), false, Payload::Empty)
    }
}

} // verus!
