//! Editing who reviews a version, or passing on to a verdict.

use vstd::prelude::*;
use vstd::string::StringExecFns;
use crate::models::address::url_joined;
use crate::models::common::{AppConfig, AppError, AppResult, FetchOther, FetchRes};
use crate::models::oid::{encode_hex, ObjectId};
use crate::models::profile::{profile_ids, PublicProfile};
use crate::models::request::{entity_path, is_request_with, Method, Payload, Request};
use crate::models::version::{ReviewPattern, Version};

verus! {

/// Whether the editor has passed on to the verdict, and the referees that
/// the profile list last handed up.
#[derive(Debug, PartialEq, Eq)]
pub struct Edit {
    to_adjudge: bool,
    reviewers: Vec<PublicProfile>,
}

/// What happens to the edit panel.
#[derive(Debug, PartialEq, Eq)]
pub enum EditMsg {
    /// The referees could not be sent, or the answer could not be read.
    Failure(AppError),
    /// The server answered, but not with a success.
    Alert(FetchOther),
    /// The user chose to pass on to the verdict.
    ToAdjudge,
    /// The profile list handed up its list.
    UpdateReviewers(Vec<PublicProfile>),
    /// The server took the referees and answered with the version as it
    /// now is.
    Submit(Version),
}

/// What the edit panel hands up to the page.
#[derive(Debug, PartialEq, Eq)]
pub enum EditEffect {
    Nothing,
    /// A failure, for the failure panel.
    Failure(AppError),
    /// An answer that was not a success, for the alert surface.
    Alert(FetchOther),
    /// The new snapshot of the version; the page stays where it is.
    Refresh(Version),
}

/// What the edit panel shows.
#[derive(Clone, Copy, Debug, PartialEq, Eq, Structural)]
pub enum EditView {
    /// The adjudge panel, in place of everything else.
    Adjudge,
    /// The button that passes on to the verdict, the profile list of the
    /// referees, and the button that sends them.
    Reviewers,
}

/// Whether `p` names these referees, in this order, as those who are still
/// to review.
pub open spec fn is_reviewer_payload(p: Payload, ids: Seq<ObjectId>) -> bool {
    p matches Payload::ReviewerSet { remainder_reviewer_ids, pattern } && remainder_reviewer_ids@
        == ids && pattern == ReviewPattern::Reviewer
}

/// The path that takes the referees of the version `id`.
pub open spec fn edit_path(id: ObjectId) -> Seq<char> {
    "versions/"@ + encode_hex(id@) + "/edit"@
}

impl Edit {
    /// Whether the editor has passed on to the verdict.
    pub closed spec fn to_adjudge(self) -> bool {
        self.to_adjudge
    }

    /// The referees that the profile list last handed up.
    pub closed spec fn reviewers(self) -> Seq<PublicProfile> {
        self.reviewers@
    }

    /// A panel that shows the profile list, with no referees yet.
    pub fn create() -> (r: Self)
        ensures
            !r.to_adjudge(),
            r.reviewers() == Seq::<PublicProfile>::empty(),
    {
        Edit { to_adjudge: false, reviewers: Vec::new() }
    }

    /// Takes in one message. The first result says whether the panel is to
    /// be drawn again: only when it passes on to the verdict. The second is
    /// what goes up to the page.
    pub fn update(&mut self, msg: EditMsg) -> (r: (bool, EditEffect))
        ensures
            final(self).to_adjudge() == (old(self).to_adjudge() || msg is ToAdjudge),
            final(self).reviewers() == if let EditMsg::UpdateReviewers(rs) = msg {
                rs@
            } else {
                old(self).reviewers()
            },
            r.0 == (msg is ToAdjudge),
            r.1 == match msg {
                EditMsg::Failure(e) => EditEffect::Failure(e),
                EditMsg::Alert(other) => EditEffect::Alert(other),
                EditMsg::Submit(version) => EditEffect::Refresh(version),
                _ => EditEffect::Nothing,
            },
    {
        match msg {
            EditMsg::Failure(e) => (false, EditEffect::Failure(e)),
            EditMsg::Alert(other) => (false, EditEffect::Alert(other)),
            EditMsg::ToAdjudge => {
                self.to_adjudge = true;
                (true, EditEffect::Nothing)
            },
            EditMsg::UpdateReviewers(rs) => {
                self.reviewers = rs;
                (false, EditEffect::Nothing)
            },
            EditMsg::Submit(version) => (false, EditEffect::Refresh(version)),
        }
    }

    /// The request that a click on the button sends: the referees as those
    /// who are still to review the version `id`, with the user's
    /// credentials.
    pub fn submit(&self, cfg: &AppConfig, id: ObjectId) -> (r: AppResult<Request>)
        ensures
            is_request_with(
                r,
                Method::Patch,
                url_joined(cfg@, edit_path(id)),
                true,
                |p: Payload| is_reviewer_payload(p, profile_ids(self.reviewers())),
            ),
    {
        let mut path = entity_path("versions/", &id);
        path.append("/edit");
        let payload = Payload::ReviewerSet {
            remainder_reviewer_ids: PublicProfile::ids(&self.reviewers),
            pattern: ReviewPattern::Reviewer,
        };
        Request::to_path(cfg, Method::Patch, path.as_str(), true, payload)
    }

    /// The message that the outcome of sending the referees stands for; a
    /// request that could not even be addressed is a failure as well.
    pub fn answered(outcome: AppResult<FetchRes<Version>>) -> (msg: EditMsg)
        ensures
            msg == match outcome {
                Ok(FetchRes::Body(version)) => EditMsg::Submit(version),
                Ok(FetchRes::Other(other)) => EditMsg::Alert(other),
                Err(e) => EditMsg::Failure(e),
            },
    {
        match outcome {
            Ok(FetchRes::Body(version)) => EditMsg::Submit(version),
            Ok(FetchRes::Other(other)) => EditMsg::Alert(other),
            Err(e) => EditMsg::Failure(e),
        }
    }

    /// What the panel shows.
    pub fn view(&self) -> (v: EditView)
        ensures
            v == if self.to_adjudge() {
                EditView::Adjudge
            } else {
                EditView::Reviewers
            },
    {
        if self.to_adjudge {
            EditView::Adjudge
        } else {
            EditView::Reviewers
        }
    }
}

impl Default for Edit {
    fn default() -> (r: Self)
        ensures
            !r.to_adjudge(),
            r.reviewers() == Seq::<PublicProfile>::empty(),
    {
        Edit::create()
    }
}

} // verus!
