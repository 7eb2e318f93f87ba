//! The authors of a new thesis: a profile list.

use vstd::prelude::*;
use crate::views::profile_list::{ProfileList, ProfileListEffect, ProfileListMsg, ProfileListView};

verus! {

/// The editor of a thesis's authors. An author is known by the identifier of
/// the profile: no profile stands in the list twice.
pub type Authors = ProfileList;

/// What happens to the authors editor.
pub type AuthorsMsg = ProfileListMsg;

/// What the authors editor hands up to the form.
pub type AuthorsEffect = ProfileListEffect;

/// What the authors editor shows.
pub type AuthorsView = ProfileListView;

} // verus!
