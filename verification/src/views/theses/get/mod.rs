//! The screen of one thesis.

pub mod page;

use vstd::prelude::*;
use crate::models::address::url_joined;
use crate::models::common::{AppConfig, AppResult};
use crate::models::oid::{encode_hex, ObjectId};
use crate::models::request::{is_request, Method, Payload, Request};
use crate::models::thesis::Thesis;
use crate::views::loader::Loader;
use crate::views::theses::get::page::PageProps;

verus! {

/// What the screen of a thesis is given: the configuration and the
/// identifier of the thesis to load.
#[derive(Debug, PartialEq, Eq)]
pub struct GetProps {
    pub cfg: AppConfig,
    pub id: ObjectId,
}

/// The load behind the screen of a thesis.
pub type ThesisLoader = Loader<Thesis>;

impl GetProps {
    /// The load for the thesis that the screen is given; the caller sends
    /// [`GetProps::request`].
    pub fn loader(&self) -> (r: ThesisLoader)
        ensures
            r.id() == self.id,
            r.state() is Pending,
    {
        Loader::new(self.id)
    }

    /// The request that fetches the thesis.
    pub fn request(&self) -> (r: AppResult<Request>)
        ensures
            is_request(
                r,
                Method::Get,
                url_joined(self.cfg@, "theses/"@ + encode_hex(self.id@)),
                false,
                Payload::Empty,
            ),
    {
        Thesis::try_get(&self.cfg, self.id)
    }

    /// What the page of the thesis is made from, once the thesis is there.
    pub fn page(self, val: Thesis) -> (props: PageProps)
        ensures
            props == (PageProps { val, cfg: self.cfg }),
    {
        PageProps { val, cfg: self.cfg }
    }
}

} // verus!
