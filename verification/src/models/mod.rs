//! Entities served by the portal and the values exchanged with it.

pub mod address;
pub mod common;
pub mod media;
pub mod oid;
pub mod profile;
pub mod request;
pub mod review;
pub mod thesis;
pub mod version;
