//! Start-up: the configuration is fetched once, before anything is drawn.

use vstd::prelude::*;
use crate::models::address::url_parsed;
use crate::models::common::{AppConfig, AppError, AppResult, REPORT_ADVICE};

verus! {

/// Where the configuration document lies, relative to the page.
pub const CONFIG_PATH: &'static str = "/config.json";

/// The words shown while the configuration loads.
pub const LOADING: &'static str = "Loading website configuration...";

/// What takes the place of the whole application when it cannot start. No
/// start is tried again.
#[derive(Debug, PartialEq, Eq)]
pub struct BootFailure {
    /// The text of the failure.
    pub text: String,
    pub advice: &'static str,
    /// The configuration document as it was fetched, where one was.
    pub document: Option<String>,
}

/// What start-up ends in.
#[derive(Debug, PartialEq, Eq)]
pub enum Boot {
    /// The application, with its configuration.
    Ready(AppConfig),
    /// The failure panel, in place of the application.
    Fatal(BootFailure),
}

/// Whether `b` is the failure panel with this text and this document.
pub open spec fn is_boot_failure(b: Boot, text: Seq<char>, document: Option<String>) -> bool {
    b matches Boot::Fatal(f) && f.text@ == text && f.advice@ == REPORT_ADVICE@ && f.document
        == document
}

/// Whether `b` is what start-up ends in, given the `fetched` configuration
/// document and the function `decode` that reads the base address out of
/// it.
///
/// A document that could not be fetched, one that `decode` refuses, and a
/// base address that does not parse are each a failure of the whole
/// application; the last two show the document beside the failure.
pub open spec fn is_boot<F: FnOnce(String) -> AppResult<String>>(
    fetched: AppResult<String>,
    decode: F,
    b: Boot,
) -> bool {
    match fetched {
        Err(e) => is_boot_failure(b, e.message(), None),
        Ok(document) => {
            ||| exists|e: AppError|
                call_ensures(decode, (document,), Err(e)) && is_boot_failure(
                    b,
                    e.message(),
                    Some(document),
                )
            ||| exists|api: String|
                call_ensures(decode, (document,), Ok(api)) && match url_parsed(api@) {
                    Ok(_) => b matches Boot::Ready(cfg) && cfg@ == api@,
                    Err(m) => is_boot_failure(b, m, Some(document)),
                }
        },
    }
}

/// Decides what start-up ends in, once the fetch of the configuration
/// document has settled.
pub fn app<F: FnOnce(String) -> AppResult<String>>(fetched: AppResult<String>, decode: F) -> (b:
    Boot)
    requires
        fetched matches Ok(document) ==> call_requires(decode, (document,)),
    ensures
        is_boot(fetched, decode, b),
{
    match fetched {
        Err(e) => Boot::Fatal(
            BootFailure { text: e.to_string(), advice: REPORT_ADVICE, document: None },
        ),
        Ok(document) => match decode(document.clone()) {
            Err(e) => {
                assert(call_ensures(decode, (document,), Err::<String, AppError>(e)));
                Boot::Fatal(
                    BootFailure {
                        text: e.to_string(),
                        advice: REPORT_ADVICE,
                        document: Some(document),
                    },
                )
            },
            Ok(api) => {
                assert(call_ensures(decode, (document,), Ok::<String, AppError>(api)));
                match AppConfig::new(api) {
                    Ok(cfg) => Boot::Ready(cfg),
                    Err(e) => Boot::Fatal(
                        BootFailure {
                            text: e.to_string(),
                            advice: REPORT_ADVICE,
                            document: Some(document),
                        },
                    ),
                }
            },
        },
    }
}

} // verus!
