//! Showing a version's release file.
//!
//! The embedded viewer is only ever handed a PDF. Before the file is shown,
//! the application asks for its headers alone; unless they name the file a
//! PDF, a plain link to the file is shown in place of the viewer.

use vstd::prelude::*;
use vstd::string::StringExecFns;
use crate::models::address::{byte_len, query_url, url_joined, url_queried, MAX_QUERIED_LEN};
use crate::models::common::AppConfig;
use crate::models::media::{application_pdf, APPLICATION_PDF};
use crate::models::request::{Method, Payload, Request};

verus! {

/// Where the viewer lies below the base address.
pub const VIEWER_PATH: &'static str = "static/web/viewer.html";

/// What the release file's place on the page is given.
#[derive(Debug, PartialEq, Eq)]
pub struct PDFProps {
    pub cfg: AppConfig,
    /// The address of the release file.
    pub file: String,
}

/// What is known of the file's media type.
#[derive(Debug, PartialEq, Eq)]
pub enum Probe {
    /// Nothing was asked, because there is no viewer to show the file in.
    NotSent,
    /// The question did not get through.
    Failed,
    /// The answer's `content-type` header, if it has one.
    ContentType(Option<String>),
}

/// What stands in the release file's place on the page.
#[derive(Debug, PartialEq, Eq)]
pub enum PdfView {
    /// The embedded viewer, at this address.
    Viewer { src: String },
    /// A plain link to the file.
    Link { href: String },
}

/// The query that tells the viewer which file to show.
pub open spec fn viewer_query(file: Seq<char>) -> Seq<char> {
    "file="@ + file
}

/// The address of the viewer for a file, if the viewer may be shown: the
/// media type is exactly that of a PDF, the viewer's address can be built,
/// and neither it nor the query is too long to be put together.
pub open spec fn viewer_src(api: Seq<char>, file: Seq<char>, probe: Probe) -> Option<Seq<char>> {
    if probe matches Probe::ContentType(Some(t)) && t@ == APPLICATION_PDF@ {
        match url_joined(api, VIEWER_PATH@) {
            Ok(viewer) => if byte_len(viewer) <= MAX_QUERIED_LEN && byte_len(viewer_query(file))
                <= MAX_QUERIED_LEN {
                match url_queried(viewer, viewer_query(file)) {
                    Ok(src) => Some(src),
                    Err(_) => None,
                }
            } else {
                None
            },
            Err(_) => None,
        }
    } else {
        None
    }
}

impl PDFProps {
    /// The request that asks for the file's headers alone. There is none
    /// where the viewer's address cannot be built: the link is shown then,
    /// whatever the file is.
    pub fn probe(&self) -> (r: Option<Request>)
        ensures
            r is Some == url_joined(self.cfg@, VIEWER_PATH@) is Ok,
            r matches Some(req) ==> req.method == Method::Head && req.url@ == self.file@
                && !req.credentials && req.csrf_token is None && req.payload == Payload::Empty,
    {
        match self.cfg.join(VIEWER_PATH) {
            Ok(_) => Some(
                Request {
                    method: Method::Head,
                    url: self.file.clone(),
                    credentials: false,
                    csrf_token: None,
                    payload: Payload::Empty,
                },
            ),
            Err(_) => None,
        }
    }

    /// What stands in the file's place, given what is known of its media
    /// type: the viewer where it may be shown, a link to the file
    /// otherwise.
    pub fn view(&self, probe: Probe) -> (v: PdfView)
        ensures
            match viewer_src(self.cfg@, self.file@, probe) {
                Some(src) => v matches PdfView::Viewer { src: s } && s@ == src,
                None => v matches PdfView::Link { href } && href@ == self.file@,
            },
    {
        if !probe.is_pdf() {
            return self.place(None);
        }
        let viewer = match self.cfg.join(VIEWER_PATH) {
            Ok(viewer) => viewer,
            Err(_) => {
                return self.place(None);
            },
        };
        let mut query = String::from_str("file=");
        query.append(self.file.as_str());
        if viewer.as_str().len() > MAX_QUERIED_LEN || query.as_str().len() > MAX_QUERIED_LEN {
            return self.place(None);
        }
        match query_url(viewer.as_str(), query.as_str()) {
            Ok(src) => self.place(Some(src)),
            Err(_) => self.place(None),
        }
    }

    /// What stands in the file's place, given the address of the viewer for
    /// it, if there is one.
    pub fn place(&self, src: Option<String>) -> (v: PdfView)
        ensures
            match src {
                Some(s) => v == (PdfView::Viewer { src: s }),
                None => v matches PdfView::Link { href } && href@ == self.file@,
            },
    {
        match src {
            Some(src) => PdfView::Viewer { src },
            None => PdfView::Link { href: self.file.clone() },
        }
    }
}

impl Probe {
    /// Whether the file is known to be a PDF: the header is there and is
    /// exactly the media type of a PDF, with nothing before or after it.
    pub fn is_pdf(&self) -> (r: bool)
        ensures
            r == (*self matches Probe::ContentType(Some(t)) && t@ == APPLICATION_PDF@),
    {
        match self {
            Probe::ContentType(Some(t)) => *t == application_pdf(),
            _ => false,
        }
    }
}

} // verus!
