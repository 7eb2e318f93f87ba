//! The page of one version: what it is, its files, and the actions that the
//! server grants on it.

pub mod adjudge;
pub mod edit;
pub mod pdf;
pub mod review;

use vstd::prelude::*;
use crate::models::address::url_joined;
use crate::models::common::{AppConfig, AppError, AppResult, FetchOther, REPORT_ADVICE};
use crate::models::oid::{encode_hex, ObjectId};
use crate::models::request::entity_path;
use crate::models::version::{Capabilities, Version, VersionState};
use crate::views::errs::ErrorView;
use crate::views::route::Route;
use crate::views::versions::page::adjudge::AdjudgeEffect;
use crate::views::versions::page::edit::EditEffect;
use crate::views::versions::page::review::ReviewEffect;

verus! {

/// What the page is made from: the version as it was fetched, what the
/// server grants on it, and the configuration.
#[derive(Debug, PartialEq, Eq)]
pub struct PageProps {
    pub val: Version,
    pub edit: bool,
    pub review: bool,
    pub adjudge: bool,
    pub cfg: AppConfig,
}

/// The snapshot of the version on show, a failure if one happened, the alert
/// if there is one, and what the page was made from.
///
/// What the server grants is asked once, when the version is loaded, and
/// kept as it was through every action: a grant that the server has since
/// withdrawn shows until the page is loaded anew.
#[derive(Debug, PartialEq, Eq)]
pub struct Page {
    val: Version,
    err: Option<AppError>,
    alert: Option<FetchOther>,
    granted: Capabilities,
    cfg: AppConfig,
}

/// What happens to the page.
#[derive(Debug, PartialEq, Eq)]
pub enum PageMsg {
    /// Something failed; the failure panel takes the page's place.
    Failure(AppError),
    /// The server answered an action, but not with a success.
    Alert(FetchOther),
    /// An edit or a verdict went through: this is the version as it now is.
    Refresh(Version),
    /// A review went through: this is the version as it now is, and the
    /// page leaves for the front page.
    Reviewed(Version),
    /// The page leaves for the front page.
    Home,
    /// The user dismissed the alert.
    Dismiss,
}

/// What the page asks of the application after a message.
#[derive(Debug, PartialEq, Eq)]
pub enum PageEffect {
    Nothing,
    /// Go to this route.
    Navigate(Route),
}

/// What the page shows of its version.
#[derive(Debug, PartialEq, Eq)]
pub struct VersionView<'a> {
    /// The version that the action panels act on.
    pub id: ObjectId,
    pub major_num: i32,
    pub minor_num: i32,
    pub state: VersionState,
    /// The address of the release file.
    pub file: String,
    /// The address of the source archive, if the version has one.
    pub source: Option<String>,
    /// The action panels to show: exactly those that the server granted.
    pub actions: Capabilities,
    /// The alert to hand to the alert surface, if there is one.
    pub alert: Option<&'a FetchOther>,
}

/// What the page shows.
#[derive(Debug, PartialEq, Eq)]
pub enum PageView<'a> {
    /// The failure panel, in place of everything else.
    Fatal(ErrorView),
    /// The version.
    Version(VersionView<'a>),
}

/// The path of the file `id` below the base address.
pub open spec fn file_path(id: ObjectId) -> Seq<char> {
    "files/"@ + encode_hex(id@)
}

/// Whether `v` is the failure panel with this text.
pub open spec fn is_fatal(v: PageView, text: Seq<char>) -> bool {
    v matches PageView::Fatal(panel) && panel.text@ == text && panel.advice@ == REPORT_ADVICE@
}

impl PageMsg {
    /// The message that stands for what the adjudge panel handed up.
    pub fn from_adjudge(effect: AdjudgeEffect) -> (msg: Option<PageMsg>)
        ensures
            msg == match effect {
                AdjudgeEffect::Nothing => None,
                AdjudgeEffect::Failure(e) => Some(PageMsg::Failure(e)),
                AdjudgeEffect::Alert(other) => Some(PageMsg::Alert(other)),
                AdjudgeEffect::Refresh(version) => Some(PageMsg::Refresh(version)),
            },
    {
        match effect {
            AdjudgeEffect::Nothing => None,
            AdjudgeEffect::Failure(e) => Some(PageMsg::Failure(e)),
            AdjudgeEffect::Alert(other) => Some(PageMsg::Alert(other)),
            AdjudgeEffect::Refresh(version) => Some(PageMsg::Refresh(version)),
        }
    }

    /// The message that stands for what the edit panel handed up.
    pub fn from_edit(effect: EditEffect) -> (msg: Option<PageMsg>)
        ensures
            msg == match effect {
                EditEffect::Nothing => None,
                EditEffect::Failure(e) => Some(PageMsg::Failure(e)),
                EditEffect::Alert(other) => Some(PageMsg::Alert(other)),
                EditEffect::Refresh(version) => Some(PageMsg::Refresh(version)),
            },
    {
        match effect {
            EditEffect::Nothing => None,
            EditEffect::Failure(e) => Some(PageMsg::Failure(e)),
            EditEffect::Alert(other) => Some(PageMsg::Alert(other)),
            EditEffect::Refresh(version) => Some(PageMsg::Refresh(version)),
        }
    }

    /// The message that stands for what the review panel handed up: after a
    /// review that went through, the page leaves for the front page.
    pub fn from_review(effect: ReviewEffect) -> (msg: Option<PageMsg>)
        ensures
            msg == match effect {
                ReviewEffect::Nothing => None,
                ReviewEffect::Failure(e) => Some(PageMsg::Failure(e)),
                ReviewEffect::Alert(other) => Some(PageMsg::Alert(other)),
                ReviewEffect::Refresh(version) => Some(PageMsg::Reviewed(version)),
            },
    {
        match effect {
            ReviewEffect::Nothing => None,
            ReviewEffect::Failure(e) => Some(PageMsg::Failure(e)),
            ReviewEffect::Alert(other) => Some(PageMsg::Alert(other)),
            ReviewEffect::Refresh(version) => Some(PageMsg::Reviewed(version)),
        }
    }
}

impl Page {
    /// The snapshot of the version on show.
    pub closed spec fn val(self) -> Version {
        self.val
    }

    /// The failure that took the page's place, if one did.
    pub closed spec fn err(self) -> Option<AppError> {
        self.err
    }

    /// The alert on show, if there is one.
    pub closed spec fn alert(self) -> Option<FetchOther> {
        self.alert
    }

    /// What the server granted when the version was loaded.
    pub closed spec fn granted(self) -> Capabilities {
        self.granted
    }

    /// The base address that the page's files lie below.
    pub closed spec fn api(self) -> Seq<char> {
        self.cfg@
    }

    /// Whether `after` is `before` once `msg` was taken in.
    ///
    /// A new snapshot takes the place of the old one as a whole and clears
    /// the alert; nothing of the old snapshot is kept. A failure and an
    /// alert are kept for showing. What the server granted, and the
    /// configuration, never change.
    pub open spec fn updated(before: Self, msg: PageMsg, after: Self) -> bool {
        &&& after.granted() == before.granted()
        &&& after.api() == before.api()
        &&& after.val() == match msg {
            PageMsg::Refresh(version) | PageMsg::Reviewed(version) => version,
            _ => before.val(),
        }
        &&& after.err() == match msg {
            PageMsg::Failure(e) => Some(e),
            _ => before.err(),
        }
        &&& after.alert() == match msg {
            PageMsg::Alert(other) => Some(other),
            PageMsg::Refresh(_) | PageMsg::Reviewed(_) | PageMsg::Dismiss => None,
            _ => before.alert(),
        }
    }

    /// The page of a version that was just fetched.
    pub fn create(props: PageProps) -> (r: Self)
        ensures
            r.val() == props.val,
            r.err() is None,
            r.alert() is None,
            r.granted() == (Capabilities {
                edit: props.edit,
                review: props.review,
                adjudge: props.adjudge,
            }),
            r.api() == props.cfg@,
    {
        Page {
            val: props.val,
            err: None,
            alert: None,
            granted: Capabilities { edit: props.edit, review: props.review, adjudge: props.adjudge },
            cfg: props.cfg,
        }
    }

    /// Takes in one message. The first result says whether the page is to be
    /// drawn again: always, unless it leaves for the front page. The second
    /// is what the page asks of the application.
    pub fn update(&mut self, msg: PageMsg) -> (r: (bool, PageEffect))
        ensures
            Self::updated(*old(self), msg, *final(self)),
            r.0 == !(msg is Home || msg is Reviewed),
            r.1 == if msg is Home || msg is Reviewed {
                PageEffect::Navigate(Route::Home)
            } else {
                PageEffect::Nothing
            },
    {
        match msg {
            PageMsg::Failure(e) => {
                self.err = Some(e);
                (true, PageEffect::Nothing)
            },
            PageMsg::Alert(other) => {
                self.alert = Some(other);
                (true, PageEffect::Nothing)
            },
            PageMsg::Refresh(version) => {
                self.val = version;
                self.alert = None;
                (true, PageEffect::Nothing)
            },
            PageMsg::Reviewed(version) => {
                self.val = version;
                self.alert = None;
                (false, PageEffect::Navigate(Route::Home))
            },
            PageMsg::Home => (false, PageEffect::Navigate(Route::Home)),
            PageMsg::Dismiss => {
                self.alert = None;
                (true, PageEffect::Nothing)
            },
        }
    }

    /// The configuration that the page was made with.
    pub fn cfg(&self) -> (cfg: &AppConfig)
        ensures
            cfg@ == self.api(),
    {
        &self.cfg
    }

    /// What the page shows, given the addresses of its files as far as they
    /// could be built.
    ///
    /// After a failure, the failure panel. Otherwise the numbers and the
    /// state of the snapshot on show, the addresses of its files, and an
    /// action panel for each action that the server granted and for no
    /// other. A file whose address could not be built is a failure too.
    pub fn draw(&self, file: AppResult<String>, source: Option<AppResult<String>>) -> (v: PageView<
        '_,
    >)
        ensures
            match self.err() {
                Some(e) => is_fatal(v, e.message()),
                None => match file {
                    Err(e) => is_fatal(v, e.message()),
                    Ok(f) => match source {
                        Some(Err(e)) => is_fatal(v, e.message()),
                        Some(Ok(s)) => self.shows(v, f@, Some(s@)),
                        None => self.shows(v, f@, None),
                    },
                },
            },
    {
        if let Some(e) = &self.err {
            return PageView::Fatal(e.view());
        }
        let file = match file {
            Ok(file) => file,
            Err(e) => {
                return PageView::Fatal(e.view());
            },
        };
        let source = match source {
            Some(Ok(source)) => Some(source),
            Some(Err(e)) => {
                return PageView::Fatal(e.view());
            },
            None => None,
        };
        let alert = match &self.alert {
            Some(other) => Some(other),
            None => None,
        };
        PageView::Version(
            VersionView {
                id: self.val._id,
                major_num: self.val.major_num,
                minor_num: self.val.minor_num,
                state: self.val.state,
                file,
                source,
                actions: self.granted,
                alert,
            },
        )
    }

    /// What the page shows: as [`Page::draw`] has it, with the release file
    /// and the source archive, if the version has one, at their places
    /// below the base address.
    pub fn view(&self) -> (v: PageView<'_>)
        ensures
            match self.err() {
                Some(e) => is_fatal(v, e.message()),
                None => match url_joined(self.api(), file_path(self.val().file_id)) {
                    Err(m) => is_fatal(v, m),
                    Ok(file) => match self.val().source_id {
                        Some(sid) => match url_joined(self.api(), file_path(sid)) {
                            Err(m) => is_fatal(v, m),
                            Ok(source) => self.shows(v, file, Some(source)),
                        },
                        None => self.shows(v, file, None),
                    },
                },
            },
    {
        let path = entity_path("files/", &self.val.file_id);
        let file = self.cfg.join(path.as_str());
        let source = match &self.val.source_id {
            Some(sid) => {
                let path = entity_path("files/", sid);
                Some(self.cfg.join(path.as_str()))
            },
            None => None,
        };
        self.draw(file, source)
    }

    /// Whether `v` shows the snapshot on show with its files at these
    /// addresses.
    pub open spec fn shows(self, v: PageView, file: Seq<char>, source: Option<Seq<char>>) -> bool {
        &&& v matches PageView::Version(shown)
        &&& shown.id == self.val()._id
        &&& shown.major_num == self.val().major_num
        &&& shown.minor_num == self.val().minor_num
        &&& shown.state == self.val().state
        &&& shown.file@ == file
        &&& match source {
            Some(a) => shown.source matches Some(s) && s@ == a,
            None => shown.source is None,
        }
        &&& shown.actions == self.granted()
        &&& match self.alert() {
            Some(other) => shown.alert == Some(&other),
            None => shown.alert is None,
        }
    }

    /// After an action the page shows what the server answered with, not
    /// what it showed before: once a new snapshot is taken in, every view
    /// of the version carries the snapshot's numbers and state, and the
    /// action panels are those that were granted when the page was made.
    pub proof fn lemma_refresh_replaces_snapshot(
        before: Self,
        msg: PageMsg,
        after: Self,
        v: PageView,
        file: Seq<char>,
        source: Option<Seq<char>>,
    )
        requires
            msg is Refresh || msg is Reviewed,
            Self::updated(before, msg, after),
            after.shows(v, file, source),
        ensures
            ({
                let version = match msg {
                    PageMsg::Refresh(version) => version,
                    PageMsg::Reviewed(version) => version,
                    _ => before.val(),
                };
                &&& after.val() == version
                &&& v matches PageView::Version(shown)
                &&& shown.id == version._id
                &&& shown.major_num == version.major_num
                &&& shown.minor_num == version.minor_num
                &&& shown.state == version.state
                &&& shown.actions == before.granted()
                &&& shown.alert is None
            }),
    {
    }
}

} // verus!
