//! Passing or failing a version outright.

use vstd::prelude::*;
use vstd::string::StringExecFns;
use crate::models::address::url_joined;
use crate::models::common::{AppConfig, AppError, AppResult, FetchOther, FetchRes};
use crate::models::oid::{encode_hex, ObjectId};
use crate::models::request::{entity_path, is_request, Method, Payload, Request};
use crate::models::version::Version;

verus! {

/// The verdict that the user has ticked so far.
#[derive(Debug, PartialEq, Eq)]
pub struct Adjudge {
    val: bool,
}

/// What happens to the adjudge panel.
#[derive(Debug, PartialEq, Eq)]
pub enum AdjudgeMsg {
    /// The verdict could not be sent, or its answer could not be read.
    Failure(AppError),
    /// The server answered, but not with a success.
    Alert(FetchOther),
    /// The user ticked or cleared the box.
    Adjudge(bool),
    /// The server took the verdict and answered with the version as it now
    /// is.
    Submit(Version),
}

/// What the adjudge panel hands up to the page.
#[derive(Debug, PartialEq, Eq)]
pub enum AdjudgeEffect {
    Nothing,
    /// A failure, for the failure panel.
    Failure(AppError),
    /// An answer that was not a success, for the alert surface.
    Alert(FetchOther),
    /// The new snapshot of the version; the page stays where it is.
    Refresh(Version),
}

/// The word that a verdict takes in an address.
pub open spec fn verdict_word(val: bool) -> Seq<char> {
    if val {
        "true"@
    } else {
        "false"@
    }
}

/// The path that takes the verdict `val` on the version `id`.
pub open spec fn adjudge_path(id: ObjectId, val: bool) -> Seq<char> {
    "versions/"@ + encode_hex(id@) + "/adjudge/"@ + verdict_word(val)
}

impl Adjudge {
    /// The verdict that is ticked.
    pub closed spec fn val(self) -> bool {
        self.val
    }

    /// A panel with the box cleared.
    pub fn create() -> (r: Self)
        ensures
            !r.val(),
    {
        Adjudge { val: false }
    }

    /// Takes in one message. The first result says whether the panel is to
    /// be drawn again: only when the box changed. The second is what goes up
    /// to the page.
    pub fn update(&mut self, msg: AdjudgeMsg) -> (r: (bool, AdjudgeEffect))
        ensures
            final(self).val() == if let AdjudgeMsg::Adjudge(j) = msg {
                j
            } else {
                old(self).val()
            },
            r.0 == (msg is Adjudge),
            r.1 == match msg {
                AdjudgeMsg::Failure(e) => AdjudgeEffect::Failure(e),
                AdjudgeMsg::Alert(other) => AdjudgeEffect::Alert(other),
                AdjudgeMsg::Adjudge(_) => AdjudgeEffect::Nothing,
                AdjudgeMsg::Submit(version) => AdjudgeEffect::Refresh(version),
            },
    {
        match msg {
            AdjudgeMsg::Failure(e) => (false, AdjudgeEffect::Failure(e)),
            AdjudgeMsg::Alert(other) => (false, AdjudgeEffect::Alert(other)),
            AdjudgeMsg::Adjudge(j) => {
                self.val = j;
                (true, AdjudgeEffect::Nothing)
            },
            AdjudgeMsg::Submit(version) => (false, AdjudgeEffect::Refresh(version)),
        }
    }

    /// The request that a click on the button sends: the ticked verdict on
    /// the version `id`, with the user's credentials.
    pub fn submit(&self, cfg: &AppConfig, id: ObjectId) -> (r: AppResult<Request>)
        ensures
            is_request(
                r,
                Method::Patch,
                url_joined(cfg@, adjudge_path(id, self.val())),
                true,
                Payload::Empty,
            ),
    {
        let mut path = entity_path("versions/", &id);
        path.append("/adjudge/");
        if self.val {
            path.append("true");
        } else {
            path.append("false");
        }
        Request::to_path(cfg, Method::Patch, path.as_str(), true, Payload::Empty)
    }

    /// The message that the outcome of sending the verdict stands for; a
    /// verdict that could not even be addressed is a failure as well.
    pub fn answered(outcome: AppResult<FetchRes<Version>>) -> (msg: AdjudgeMsg)
        ensures
            msg == match outcome {
                Ok(FetchRes::Body(version)) => AdjudgeMsg::Submit(version),
                Ok(FetchRes::Other(other)) => AdjudgeMsg::Alert(other),
                Err(e) => AdjudgeMsg::Failure(e),
            },
    {
        match outcome {
            Ok(FetchRes::Body(version)) => AdjudgeMsg::Submit(version),
            Ok(FetchRes::Other(other)) => AdjudgeMsg::Alert(other),
            Err(e) => AdjudgeMsg::Failure(e),
        }
    }

    /// Whether the box is drawn ticked.
    pub fn view(&self) -> (checked: bool)
        ensures
            checked == self.val(),
    {
        self.val
    }
}

impl Default for Adjudge {
    fn default() -> (r: Self)
        ensures
            !r.val(),
    {
        Adjudge::create()
    }
}

} // verus!
