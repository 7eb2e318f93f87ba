//! A version of a thesis and where it stands in review.

use vstd::prelude::*;
use crate::models::address::url_joined;
use crate::models::common::{AppConfig, AppResult, Timestamp};
use crate::models::oid::{encode_hex, ObjectId};
use crate::models::request::{entity_path, is_request, Method, Payload, Request};

verus! {

/// Who reviews a version: one editor, or its referees.
#[derive(Clone, Debug, PartialEq, Eq)]
pub enum ReviewPattern {
    Editor(ObjectId),
    Reviewer,
}

impl Default for ReviewPattern {
    fn default() -> (r: Self)
        ensures
            r == ReviewPattern::Reviewer,
    {
        ReviewPattern::Reviewer
    }
}

/// The referees who have not reviewed yet, and who reviews. The referees are
/// a set: none of them occurs twice.
#[derive(Debug, PartialEq, Eq)]
pub struct ReviewState {
    remainder_reviewer_ids: Vec<ObjectId>,
    pattern: ReviewPattern,
}

impl ReviewState {
    #[verifier::type_invariant]
    spec fn is_set(self) -> bool {
        self.remainder_reviewer_ids@.no_duplicates()
    }

    /// The referees who have not reviewed yet, in the order in which the
    /// server sent them.
    pub closed spec fn ids(self) -> Seq<ObjectId> {
        self.remainder_reviewer_ids@
    }

    /// Who reviews.
    pub closed spec fn who(self) -> ReviewPattern {
        self.pattern
    }

    /// The state with these referees, unless one of them occurs twice.
    pub fn new(remainder_reviewer_ids: Vec<ObjectId>, pattern: ReviewPattern) -> (r: Option<Self>)
        ensures
            r is Some == remainder_reviewer_ids@.no_duplicates(),
            r matches Some(state) ==> state.ids() == remainder_reviewer_ids@ && state.who()
                == pattern,
    {
        let mut i: usize = 0;
        while i < remainder_reviewer_ids.len()
            invariant
                i <= remainder_reviewer_ids.len(),
                remainder_reviewer_ids@.take(i as int).no_duplicates(),
            decreases remainder_reviewer_ids.len() - i,
        {
            let mut j: usize = 0;
            while j < i
                invariant
                    j <= i < remainder_reviewer_ids.len(),
                    forall|k: int|
                        0 <= k < j ==> remainder_reviewer_ids@[k] != remainder_reviewer_ids@[i as int],
                decreases i - j,
            {
                proof {
                    remainder_reviewer_ids@[j as int].lemma_view_injective(
                        remainder_reviewer_ids@[i as int],
                    );
                }
                if remainder_reviewer_ids[j] == remainder_reviewer_ids[i] {
                    return None;
                }
                j += 1;
            }
            i += 1;
        }
        assert(remainder_reviewer_ids@.take(remainder_reviewer_ids.len() as int)
            =~= remainder_reviewer_ids@);
        Some(ReviewState { remainder_reviewer_ids, pattern })
    }

    /// The referees who have not reviewed yet; none occurs twice.
    pub fn remainder_reviewer_ids(&self) -> (r: &Vec<ObjectId>)
        ensures
            r@ == self.ids(),
            r@.no_duplicates(),
    {
        proof {
            use_type_invariant(self);
        }
        &self.remainder_reviewer_ids
    }

    /// Who reviews.
    pub fn pattern(&self) -> (r: &ReviewPattern)
        ensures
            *r == self.who(),
    {
        &self.pattern
    }
}

impl Clone for ReviewState {
    fn clone(&self) -> (r: Self)
        ensures
            r.ids() == self.ids(),
            r.who() == self.who(),
    {
        proof {
            use_type_invariant(self);
        }
        let mut ids: Vec<ObjectId> = Vec::new();
        let mut i: usize = 0;
        while i < self.remainder_reviewer_ids.len()
            invariant
                i <= self.remainder_reviewer_ids.len(),
                ids@ == self.remainder_reviewer_ids@.take(i as int),
            decreases self.remainder_reviewer_ids.len() - i,
        {
            ids.push(self.remainder_reviewer_ids[i]);
            assert(ids@ =~= self.remainder_reviewer_ids@.take(i + 1));
            i += 1;
        }
        assert(self.remainder_reviewer_ids@.take(self.remainder_reviewer_ids.len() as int)
            =~= self.remainder_reviewer_ids@);
        let pattern = match &self.pattern {
            ReviewPattern::Editor(id) => ReviewPattern::Editor(*id),
            ReviewPattern::Reviewer => ReviewPattern::Reviewer,
        };
        ReviewState { remainder_reviewer_ids: ids, pattern }
    }
}

impl Default for ReviewState {
    fn default() -> (r: Self)
        ensures
            r.ids() == Seq::<ObjectId>::empty(),
            r.who() == ReviewPattern::Reviewer,
    {
        ReviewState { remainder_reviewer_ids: Vec::new(), pattern: ReviewPattern::Reviewer }
    }
}

/// Where a version stands. The server moves a version from one state to the
/// next; the client only shows what it is told.
#[derive(Clone, Copy, Debug, PartialEq, Eq, Structural)]
pub enum VersionState {
    Uploaded,
    Reviewing,
    Passed(bool),
    History,
}

impl Default for VersionState {
    fn default() -> (r: Self)
        ensures
            r == VersionState::Uploaded,
    {
        VersionState::Uploaded
    }
}

/// What the server lets this client do to a version. The client shows the
/// actions that are granted and decides nothing itself.
#[derive(Clone, Copy, Debug, PartialEq, Eq, Structural)]
pub struct Capabilities {
    pub edit: bool,
    pub review: bool,
    pub adjudge: bool,
}

impl Capabilities {
    /// No action is granted.
    pub fn none() -> (c: Self)
        ensures
            c == (Capabilities { edit: false, review: false, adjudge: false }),
    {
        Capabilities { edit: false, review: false, adjudge: false }
    }

    /// Every action is granted.
    pub fn all() -> (c: Self)
        ensures
            c == (Capabilities { edit: true, review: true, adjudge: true }),
    {
        Capabilities { edit: true, review: true, adjudge: true }
    }

    /// Whether no action is granted.
    pub fn is_none(&self) -> (r: bool)
        ensures
            r == (!self.edit && !self.review && !self.adjudge),
    {
        !self.edit && !self.review && !self.adjudge
    }
}

/// A snapshot of one version of a thesis. A mutation never changes a
/// snapshot: the server answers with a new one, which takes its place.
#[derive(Clone, Debug, PartialEq, Eq)]
pub struct Version {
    pub _id: ObjectId,
    pub thesis_id: ObjectId,
    pub uploaded_at: Timestamp,
    pub uploader_id: Option<ObjectId>,
    pub major_num: i32,
    pub minor_num: i32,
    pub file_id: ObjectId,
    pub source_id: Option<ObjectId>,
    pub state: VersionState,
    pub review_state: ReviewState,
    pub downloads: i32,
}

impl Version {
    /// The request that fetches the version `id` together with what this
    /// client may do to it. It carries the user's credentials, since the
    /// answer depends on who asks.
    pub fn try_get(cfg: &AppConfig, id: ObjectId) -> (r: AppResult<Request>)
        ensures
            is_request(
                r,
                Method::Get,
                url_joined(cfg@, "versions/"@ + encode_hex(id@)),
                true,
                Payload::Empty,
            ),
    {
        let path = entity_path("versions/", &id);
        Request::to_path(cfg, Method::Get, path.as_str(), true, Payload::Empty)
    }
}

} // verus!
