//! The screens for theses.

pub mod get;
pub mod post;
pub mod route;
