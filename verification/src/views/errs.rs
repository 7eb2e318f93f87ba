//! The panel that takes the place of a screen after a failure.

use vstd::prelude::*;
use crate::models::common::{AppError, REPORT_ADVICE};

verus! {

/// What the failure panel shows: the text of the failure, then the advice to
/// report it. Nothing is tried again.
#[derive(Debug, PartialEq, Eq)]
pub struct ErrorView {
    pub text: String,
    pub advice: &'static str,
}

impl AppError {
    /// The panel for this failure.
    pub fn view(&self) -> (v: ErrorView)
        ensures
            v.text@ == self.message(),
            v.advice@ == REPORT_ADVICE@,
    {
        ErrorView { text: self.to_string(), advice: REPORT_ADVICE }
    }
}

} // verus!
