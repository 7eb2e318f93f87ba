//! The page of one thesis, with the form that commits a new version of it.

use vstd::prelude::*;
use vstd::string::StringExecFns;
use crate::models::address::url_joined;
use crate::models::common::{AppConfig, AppError, AppResult, FetchOther, FetchRes, REPORT_ADVICE};
use crate::models::media::{application_pdf, APPLICATION_PDF};
use crate::models::oid::{encode_hex, ObjectId};
use crate::models::request::{entity_path, is_request, Method, Payload, Request};
use crate::models::thesis::Thesis;
use crate::views::errs::ErrorView;
use crate::views::route::Route;

verus! {

/// The archives that the form takes as a version's source.
pub const SOURCE_ACCEPT: &'static str =
    ".tar.gz,.tgz,.tar.Z,.tar.bz2,.tbz2,.tar.lz,.tlz,.tar.xz,.txz,.tar.zst";

/// A failure if one happened, and the alert if there is one.
#[derive(Debug, PartialEq, Eq)]
pub struct Page {
    err: Option<AppError>,
    alert: Option<FetchOther>,
}

/// What happens to the page.
#[derive(Debug, PartialEq, Eq)]
pub enum PageMsg {
    /// Something failed; the failure panel takes the page's place.
    Failure(AppError),
    /// The server answered the commit, but not with a success.
    Alert(FetchOther),
    /// The user sent the form off.
    File,
    /// The server took the commit: this is the new version.
    Version(ObjectId),
}

/// What the page is made from: the thesis and the configuration.
#[derive(Debug, PartialEq, Eq)]
pub struct PageProps {
    pub val: Thesis,
    pub cfg: AppConfig,
}

/// What the page asks of the application after a message.
#[derive(Debug, PartialEq, Eq)]
pub enum PageEffect {
    Nothing,
    /// Send this request, with the form as the user filled it in.
    Commit(Request),
    /// Go to this route.
    Navigate(Route),
}

/// The fields of the form that commits a version. The message and the
/// release file are needed, the source archive is not.
#[derive(Debug, PartialEq, Eq)]
pub struct CommitForm {
    /// The media type that the release file must have.
    pub release_accept: String,
    /// The endings that a source archive may have.
    pub source_accept: &'static str,
    pub message_required: bool,
    pub release_required: bool,
    pub source_required: bool,
}

/// What the page shows of its thesis: each author is drawn as a small
/// profile that is loaded by its identifier.
#[derive(Debug, PartialEq, Eq)]
pub struct ThesisView<'a> {
    pub title: &'a String,
    pub author_ids: &'a Vec<ObjectId>,
    pub abstraction: &'a String,
    pub keywords: &'a Vec<String>,
    pub form: CommitForm,
    /// The alert to hand to the alert surface, if there is one.
    pub alert: Option<&'a FetchOther>,
}

/// What the page shows.
#[derive(Debug, PartialEq, Eq)]
pub enum PageView<'a> {
    /// The failure panel, in place of everything else.
    Fatal(ErrorView),
    /// The thesis.
    Thesis(ThesisView<'a>),
}

/// The path that takes a commit to the thesis `id`.
pub open spec fn commit_path(id: ObjectId) -> Seq<char> {
    "theses/"@ + encode_hex(id@) + "/commit"@
}

impl PageProps {
    /// The request that commits a version: the form goes to the thesis, with
    /// the user's credentials.
    pub fn commit(&self) -> (r: AppResult<Request>)
        ensures
            is_request(
                r,
                Method::Post,
                url_joined(self.cfg@, commit_path(self.val.id._id)),
                true,
                Payload::Form,
            ),
    {
        let mut path = entity_path("theses/", &self.val.id._id);
        path.append("/commit");
        Request::to_path(&self.cfg, Method::Post, path.as_str(), true, Payload::Form)
    }
}

impl Page {
    /// The failure that took the page's place, if one did.
    pub closed spec fn err(self) -> Option<AppError> {
        self.err
    }

    /// The alert on show, if there is one.
    pub closed spec fn alert(self) -> Option<FetchOther> {
        self.alert
    }

    /// A page without failure or alert.
    pub fn create() -> (r: Self)
        ensures
            r.err() is None,
            r.alert() is None,
    {
        Page { err: None, alert: None }
    }

    /// Takes in one message. The first result says whether the page is to be
    /// drawn again, the second what it asks of the application.
    ///
    /// Sending the form off asks for the commit to be sent; where the
    /// commit cannot even be addressed, that is a failure on the spot. A
    /// commit that went through leads to the page of the new version.
    pub fn update(&mut self, props: &PageProps, msg: PageMsg) -> (r: (bool, PageEffect))
        ensures
            match msg {
                PageMsg::Failure(e) => {
                    &&& final(self).err() == Some(e)
                    &&& final(self).alert() == old(self).alert()
                    &&& r == (true, PageEffect::Nothing)
                },
                PageMsg::Alert(other) => {
                    &&& final(self).err() == old(self).err()
                    &&& final(self).alert() == Some(other)
                    &&& r == (true, PageEffect::Nothing)
                },
                PageMsg::File => {
                    &&& final(self).alert() == old(self).alert()
                    &&& r.0
                    &&& match url_joined(props.cfg@, commit_path(props.val.id._id)) {
                        Ok(_) => {
                            &&& final(self).err() == old(self).err()
                            &&& r.1 matches PageEffect::Commit(req)
                            &&& is_request(
                                Ok(req),
                                Method::Post,
                                url_joined(props.cfg@, commit_path(props.val.id._id)),
                                true,
                                Payload::Form,
                            )
                        },
                        Err(m) => {
                            &&& final(self).err() matches Some(AppError::Parse(t))
                            &&& t@ == m
                            &&& r.1 is Nothing
                        },
                    }
                },
                PageMsg::Version(id) => {
                    &&& *final(self) == *old(self)
                    &&& r == (false, PageEffect::Navigate(Route::Versions { id }))
                },
            },
    {
        match msg {
            PageMsg::Failure(e) => {
                self.err = Some(e);
                (true, PageEffect::Nothing)
            },
            PageMsg::Alert(other) => {
                self.alert = Some(other);
                (true, PageEffect::Nothing)
            },
            PageMsg::File => match props.commit() {
                Ok(req) => (true, PageEffect::Commit(req)),
                Err(e) => {
                    self.err = Some(e);
                    (true, PageEffect::Nothing)
                },
            },
            PageMsg::Version(id) => (false, PageEffect::Navigate(Route::Versions { id })),
        }
    }

    /// The message that the outcome of a commit stands for.
    pub fn committed(outcome: AppResult<FetchRes<ObjectId>>) -> (msg: PageMsg)
        ensures
            msg == match outcome {
                Ok(FetchRes::Body(id)) => PageMsg::Version(id),
                Ok(FetchRes::Other(other)) => PageMsg::Alert(other),
                Err(e) => PageMsg::Failure(e),
            },
    {
        match outcome {
            Ok(FetchRes::Body(id)) => PageMsg::Version(id),
            Ok(FetchRes::Other(other)) => PageMsg::Alert(other),
            Err(e) => PageMsg::Failure(e),
        }
    }

    /// What the page shows: after a failure, the failure panel; otherwise
    /// the thesis as it was fetched, the form, and the alert if there is
    /// one.
    pub fn view<'a>(&'a self, props: &'a PageProps) -> (v: PageView<'a>)
        ensures
            match self.err() {
                Some(e) => v matches PageView::Fatal(panel) && panel.text@ == e.message()
                    && panel.advice@ == REPORT_ADVICE@,
                None => {
                    &&& v matches PageView::Thesis(shown)
                    &&& *shown.title == props.val.title
                    &&& *shown.author_ids == props.val.author_ids
                    &&& *shown.abstraction == props.val.abstraction
                    &&& *shown.keywords == props.val.keywords
                    &&& shown.form.release_accept@ == APPLICATION_PDF@
                    &&& shown.form.source_accept@ == SOURCE_ACCEPT@
                    &&& shown.form.message_required
                    &&& shown.form.release_required
                    &&& !shown.form.source_required
                    &&& match self.alert() {
                        Some(other) => shown.alert == Some(&other),
                        None => shown.alert is None,
                    }
                },
            },
    {
        if let Some(e) = &self.err {
            return PageView::Fatal(e.view());
        }
        let alert = match &self.alert {
            Some(other) => Some(other),
            None => None,
        };
        PageView::Thesis(
            ThesisView {
                title: &props.val.title,
                author_ids: &props.val.author_ids,
                abstraction: &props.val.abstraction,
                keywords: &props.val.keywords,
                form: CommitForm {
                    release_accept: application_pdf(),
                    source_accept: SOURCE_ACCEPT,
                    message_required: true,
                    release_required: true,
                    source_required: false,
                },
                alert,
            },
        )
    }
}

impl Default for Page {
    fn default() -> (r: Self)
        ensures
            r.err() is None,
            r.alert() is None,
    {
        Page::create()
    }
}

} // verus!
