//! Client-side model of a thesis submission and review portal: the three-way
//! outcome of a fetch, restartable loading of remote entities, the ordered
//! de-duplicated list editors for authors and keywords, the version review
//! workflow, and the single-slot alert surface.
//!
//! Everything here is plain data and decisions. Sending requests, decoding
//! bodies and drawing the page are left to the embedding application.

pub mod app;
pub mod models;
pub mod views;
