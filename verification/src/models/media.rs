//! Media types, as the `mime` crate names them.

use vstd::prelude::*;

verus! {

/// The media type of a PDF document.
pub const APPLICATION_PDF: &'static str = "application/pdf";

/// Writes `mime::APPLICATION_PDF` out as text, which the `mime` crate
/// defines as `application/pdf`.
#[verifier::external_body]
pub(crate) fn application_pdf() -> (r: String)
    ensures
        r@ == APPLICATION_PDF@,
{
    mime::APPLICATION_PDF.to_string()
}

} // verus!
