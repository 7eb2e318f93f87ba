//! Reviewing a version: a judgement and a criticism.

use vstd::prelude::*;
use vstd::string::StringExecFns;
use crate::models::address::url_joined;
use crate::models::common::{AppConfig, AppError, AppResult, FetchOther, FetchRes};
use crate::models::oid::{encode_hex, ObjectId};
use crate::models::request::{entity_path, is_request_with, Method, Payload, Request};
use crate::models::version::Version;

verus! {

/// What the referee has entered so far.
#[derive(Debug, PartialEq, Eq)]
pub struct Review {
    judgement: bool,
    criticism: String,
}

/// What happens to the review panel.
#[derive(Debug, PartialEq, Eq)]
pub enum ReviewMsg {
    /// The review could not be sent, or its answer could not be read.
    Failure(AppError),
    /// The server answered, but not with a success.
    Alert(FetchOther),
    /// The referee ticked or cleared the judgement.
    Judge(bool),
    /// The referee changed the criticism.
    Criticise(String),
    /// The server took the review and answered with the version as it now
    /// is.
    Submit(Version),
}

/// What the review panel hands up to the page.
#[derive(Debug, PartialEq, Eq)]
pub enum ReviewEffect {
    Nothing,
    /// A failure, for the failure panel.
    Failure(AppError),
    /// An answer that was not a success, for the alert surface.
    Alert(FetchOther),
    /// The new snapshot of the version; the page then leaves for the front
    /// page.
    Refresh(Version),
}

/// What the review panel shows.
#[derive(Debug, PartialEq, Eq)]
pub struct ReviewView {
    pub judgement: bool,
    pub criticism: String,
    /// Whether the button is switched off.
    pub disabled: bool,
}

/// Whether `p` carries this judgement and this criticism.
pub open spec fn is_review_payload(p: Payload, judgement: bool, criticism: Seq<char>) -> bool {
    p matches Payload::Review { judgement: j, criticism: c } && j == judgement && c@
        == criticism
}

/// The path that takes a review of the version `id`.
pub open spec fn review_path(id: ObjectId) -> Seq<char> {
    "versions/"@ + encode_hex(id@) + "/review"@
}

impl Review {
    /// The judgement that is ticked.
    pub closed spec fn judgement(self) -> bool {
        self.judgement
    }

    /// The criticism as it was last typed.
    pub closed spec fn criticism(self) -> Seq<char> {
        self.criticism@
    }

    /// Whether the review can be sent: a review needs a criticism, so the
    /// button stays switched off while the criticism is empty.
    pub open spec fn can_submit(self) -> bool {
        self.criticism().len() > 0
    }

    /// A panel with the judgement cleared and no criticism.
    pub fn create() -> (r: Self)
        ensures
            !r.judgement(),
            r.criticism() == Seq::<char>::empty(),
    {
        Review { judgement: false, criticism: String::new() }
    }

    /// Takes in one message. The first result says whether the panel is to
    /// be drawn again: only when an entry changed. The second is what goes
    /// up to the page.
    pub fn update(&mut self, msg: ReviewMsg) -> (r: (bool, ReviewEffect))
        ensures
            final(self).judgement() == if let ReviewMsg::Judge(j) = msg {
                j
            } else {
                old(self).judgement()
            },
            final(self).criticism() == if let ReviewMsg::Criticise(c) = msg {
                c@
            } else {
                old(self).criticism()
            },
            r.0 == (msg is Judge || msg is Criticise),
            r.1 == match msg {
                ReviewMsg::Failure(e) => ReviewEffect::Failure(e),
                ReviewMsg::Alert(other) => ReviewEffect::Alert(other),
                ReviewMsg::Submit(version) => ReviewEffect::Refresh(version),
                _ => ReviewEffect::Nothing,
            },
    {
        match msg {
            ReviewMsg::Failure(e) => (false, ReviewEffect::Failure(e)),
            ReviewMsg::Alert(other) => (false, ReviewEffect::Alert(other)),
            ReviewMsg::Judge(j) => {
                self.judgement = j;
                (true, ReviewEffect::Nothing)
            },
            ReviewMsg::Criticise(c) => {
                self.criticism = c;
                (true, ReviewEffect::Nothing)
            },
            ReviewMsg::Submit(version) => (false, ReviewEffect::Refresh(version)),
        }
    }

    /// The request that a click on the button sends: the judgement and the
    /// criticism on the version `id`, with the user's credentials. There is
    /// none while the review cannot be sent.
    pub fn submit(&self, cfg: &AppConfig, id: ObjectId) -> (r: Option<AppResult<Request>>)
        ensures
            r is Some == self.can_submit(),
            r matches Some(res) ==> is_request_with(
                res,
                Method::Post,
                url_joined(cfg@, review_path(id)),
                true,
                |p: Payload| is_review_payload(p, self.judgement(), self.criticism()),
            ),
    {
        if self.criticism.as_str().is_empty() {
            return None;
        }
        let mut path = entity_path("versions/", &id);
        path.append("/review");
        let payload = Payload::Review {
            judgement: self.judgement,
            criticism: self.criticism.clone(),
        };
        Some(Request::to_path(cfg, Method::Post, path.as_str(), true, payload))
    }

    /// The message that the outcome of sending the review stands for; a
    /// review that could not even be addressed is a failure as well.
    pub fn answered(outcome: AppResult<FetchRes<Version>>) -> (msg: ReviewMsg)
        ensures
            msg == match outcome {
                Ok(FetchRes::Body(version)) => ReviewMsg::Submit(version),
                Ok(FetchRes::Other(other)) => ReviewMsg::Alert(other),
                Err(e) => ReviewMsg::Failure(e),
            },
    {
        match outcome {
            Ok(FetchRes::Body(version)) => ReviewMsg::Submit(version),
            Ok(FetchRes::Other(other)) => ReviewMsg::Alert(other),
            Err(e) => ReviewMsg::Failure(e),
        }
    }

    /// What the panel shows.
    pub fn view(&self) -> (v: ReviewView)
        ensures
            v.judgement == self.judgement(),
            v.criticism@ == self.criticism(),
            v.disabled == !self.can_submit(),
    {
        ReviewView {
            judgement: self.judgement,
            criticism: self.criticism.clone(),
            disabled: self.criticism.as_str().is_empty(),
        }
    }
}

impl Default for Review {
    fn default() -> (r: Self)
        ensures
            !r.judgement(),
            r.criticism() == Seq::<char>::empty(),
    {
        Review::create()
    }
}

} // verus!
