//! A profile at its smallest: a picture and a name.

use vstd::prelude::*;
use vstd::string::StringExecFns;
use crate::models::address::url_joined;
use crate::models::common::{AppConfig, AppResult, FetchOther, FetchRes, REPORT_ADVICE};
use crate::models::oid::{encode_hex, ObjectId};
use crate::models::profile::PublicProfile;
use crate::models::request::entity_path;
use crate::views::errs::ErrorView;
use crate::views::loader::{Loaded, Loader, LoaderView};

verus! {

/// The picture of a user who has none of their own.
pub const DEFAULT_AVATAR: &'static str = "/default.jpg";

/// What the small form of a profile shows.
#[derive(Debug, PartialEq, Eq)]
pub struct TinyView {
    /// Where the picture comes from.
    pub src: String,
    pub name: String,
}

/// What stands where a profile is shown by its identifier alone.
#[derive(Debug, PartialEq, Eq)]
pub enum TinyProfileView<'a> {
    /// These words, while the profile loads.
    Loading(String),
    /// The profile in its small form.
    Tiny(TinyView),
    /// An answer that was not a success, for the alert surface.
    Alert(&'a FetchOther),
    /// The failure panel.
    Fatal(ErrorView),
}

/// The words shown while the profile `id` loads.
pub open spec fn loading_tiny(id: ObjectId) -> Seq<char> {
    "Loading Tiny Profile "@ + encode_hex(id@) + "..."@
}

/// Where the picture of a user comes from: the address of their avatar below
/// the base address, or the default picture where they have none or the
/// address cannot be built.
pub open spec fn avatar_src(api: Seq<char>, avatar_id: Option<ObjectId>) -> Seq<char> {
    match avatar_id {
        Some(aid) => match url_joined(api, "profiles/"@ + encode_hex(aid@)) {
            Ok(address) => address,
            Err(_) => DEFAULT_AVATAR@,
        },
        None => DEFAULT_AVATAR@,
    }
}

/// Where a picture comes from, given the address of the avatar if the user
/// has one: that address where it could be built, the default picture
/// otherwise.
pub fn avatar_or_default(joined: Option<AppResult<String>>) -> (src: String)
    ensures
        match joined {
            Some(Ok(address)) => src == address,
            _ => src@ == DEFAULT_AVATAR@,
        },
{
    match joined {
        Some(Ok(address)) => address,
        _ => String::from_str(DEFAULT_AVATAR),
    }
}

impl PublicProfile {
    /// The small form of this profile.
    pub fn view_tiny(&self, cfg: &AppConfig) -> (v: TinyView)
        ensures
            v.src@ == avatar_src(cfg@, self.avatar_id),
            v.name@ == self.name@,
    {
        let joined = match &self.avatar_id {
            Some(aid) => {
                let path = entity_path("profiles/", aid);
                Some(cfg.join(path.as_str()))
            },
            None => None,
        };
        TinyView { src: avatar_or_default(joined), name: self.name.clone() }
    }

    /// What stands where the profile `id` is shown, given how far its load
    /// has come.
    pub fn tiny_from_id<'a>(
        id: ObjectId,
        cfg: &AppConfig,
        loader: &'a Loader<PublicProfile>,
    ) -> (v: TinyProfileView<'a>)
        ensures
            match loader.state() {
                Loaded::Pending => v matches TinyProfileView::Loading(words) && words@
                    == loading_tiny(id),
                Loaded::Ready(Ok(FetchRes::Body(profile))) => v matches TinyProfileView::Tiny(tiny)
                    && tiny.src@ == avatar_src(cfg@, profile.avatar_id) && tiny.name@
                    == profile.name@,
                Loaded::Ready(Ok(FetchRes::Other(other))) => v == TinyProfileView::Alert(&other),
                Loaded::Ready(Err(e)) => v matches TinyProfileView::Fatal(panel) && panel.text@
                    == e.message() && panel.advice@ == REPORT_ADVICE@,
            },
    {
        match loader.view() {
            LoaderView::Placeholder => {
                let mut words = String::from_str("Loading Tiny Profile ");
                let hex = id.to_hex();
                words.append(hex.as_str());
                words.append("...");
                TinyProfileView::Loading(words)
            },
            LoaderView::Entity(profile) => TinyProfileView::Tiny(
                profile.view_tiny(cfg),
            ),
            LoaderView::Alert(other) => TinyProfileView::Alert(other),
            LoaderView::Fatal(panel) => TinyProfileView::Fatal(panel),
        }
    }
}

} // verus!
