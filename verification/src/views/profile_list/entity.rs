//! One line of a profile list.

use vstd::prelude::*;
use crate::models::common::AppConfig;
use crate::models::profile::PublicProfile;
use crate::views::tiny_profiles::{avatar_src, TinyView};

verus! {

/// What one line shows: the profile in its small form, and the place in the
/// list that its delete mark removes.
#[derive(Debug, PartialEq, Eq)]
pub struct Entity {
    pub tiny: TinyView,
    pub delete: usize,
}

/// Whether `e` is the line of `val` at place `index`.
pub open spec fn is_entity(e: Entity, val: PublicProfile, index: int, api: Seq<char>) -> bool {
    &&& e.delete == index
    &&& e.tiny.name@ == val.name@
    &&& e.tiny.src@ == avatar_src(api, val.avatar_id)
}

/// The line of `val` at place `index`.
pub fn view_entity(val: &PublicProfile, index: usize, cfg: &AppConfig) -> (e: Entity)
    ensures
        is_entity(e, *val, index as int, cfg@),
{
    Entity { tiny: val.view_tiny(cfg), delete: index }
}

} // verus!
