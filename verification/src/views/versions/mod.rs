//! The screens for versions.

pub mod page;

use vstd::prelude::*;
use crate::models::address::url_joined;
use crate::models::common::{AppConfig, AppResult};
use crate::models::oid::{encode_hex, ObjectId};
use crate::models::request::{is_request, Method, Payload, Request};
use crate::models::version::Version;
use crate::views::loader::Loader;
use crate::views::versions::page::PageProps;

verus! {

/// What the screen of a version is given: the configuration and the
/// identifier of the version to load.
#[derive(Debug, PartialEq, Eq)]
pub struct GetProps {
    pub cfg: AppConfig,
    pub id: ObjectId,
}

/// What the server answers a fetch of a version with: the version, and
/// whether this client may edit, review and adjudge it.
pub type Granted = (Version, bool, bool, bool);

/// The load behind the screen of a version.
pub type VersionLoader = Loader<Granted>;

impl GetProps {
    /// The load for the version that the screen is given; the caller sends
    /// [`GetProps::request`].
    pub fn loader(&self) -> (r: VersionLoader)
        ensures
            r.id() == self.id,
            r.state() is Pending,
    {
        Loader::new(self.id)
    }

    /// The request that fetches the version.
    pub fn request(&self) -> (r: AppResult<Request>)
        ensures
            is_request(
                r,
                Method::Get,
                url_joined(self.cfg@, "versions/"@ + encode_hex(self.id@)),
                true,
                Payload::Empty,
            ),
    {
        Version::try_get(&self.cfg, self.id)
    }

    /// What the page of the version is made from, once the version is
    /// there.
    pub fn page(self, fetched: Granted) -> (props: PageProps)
        ensures
            props == (PageProps {
                val: fetched.0,
                edit: fetched.1,
                review: fetched.2,
                adjudge: fetched.3,
                cfg: self.cfg,
            }),
    {
        PageProps {
            val: fetched.0,
            edit: fetched.1,
            review: fetched.2,
            adjudge: fetched.3,
            cfg: self.cfg,
        }
    }
}

} // verus!
