//! The state behind each screen, and what each screen shows.

pub mod alerts;
pub mod collection;
pub mod errs;
pub mod loader;
pub mod login;
pub mod profile_list;
pub mod route;
pub mod signup;
pub mod theses;
pub mod tiny_profiles;
pub mod versions;
