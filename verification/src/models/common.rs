//! Configuration, failures and the three-way outcome of a fetch.

use vstd::prelude::*;
use crate::models::address::{join_url, parse_url, text_result, url_joined, url_parsed};

verus! {

/// The sentence shown under every failure that the user cannot mend.
pub const REPORT_ADVICE: &'static str = "Please report this error to our administrator!";

/// A moment in time: whole seconds since the start of 1970 in UTC, and the
/// nanoseconds past that second.
#[derive(Clone, Copy, Debug, PartialEq, Eq, Structural)]
pub struct Timestamp {
    pub secs: i64,
    pub nanos: u32,
}

/// A failure that ends the screen it happens on: the address could not be
/// built, the request did not get through, or the body could not be read.
/// Each variant keeps the text that is shown to the user.
#[derive(Debug, PartialEq, Eq)]
pub enum AppError {
    /// An address could not be parsed or joined.
    Parse(String),
    /// The request failed on the way, or its body could not be read or decoded.
    Response(String),
    /// The browser raised a value; this is its JSON text.
    Js(String),
    /// The browser raised a value that has no JSON form.
    Json(String),
}

/// What may end in an [`AppError`].
pub type AppResult<T> = Result<T, AppError>;

impl AppError {
    /// The text of the failure.
    pub open spec fn message(&self) -> Seq<char> {
        match self {
            AppError::Parse(m) => m@,
            AppError::Response(m) => m@,
            AppError::Js(m) => m@,
            AppError::Json(m) => m@,
        }
    }

    /// The text of the failure, as it is shown.
    pub fn to_string(&self) -> (s: String)
        ensures
            s@ == self.message(),
    {
        match self {
            AppError::Parse(m) => m.clone(),
            AppError::Response(m) => m.clone(),
            AppError::Js(m) => m.clone(),
            AppError::Json(m) => m.clone(),
        }
    }
}

impl Clone for AppError {
    fn clone(&self) -> (r: Self)
        ensures
            r == *self,
    {
        match self {
            AppError::Parse(m) => AppError::Parse(m.clone()),
            AppError::Response(m) => AppError::Response(m.clone()),
            AppError::Js(m) => AppError::Js(m.clone()),
            AppError::Json(m) => AppError::Json(m.clone()),
        }
    }
}

/// Whether `r` is the address, or the failure, that `named` stands for: an
/// address is handed on as it is, the words of a failure become a
/// [`AppError::Parse`].
pub open spec fn is_address(r: AppResult<String>, named: Result<Seq<char>, Seq<char>>) -> bool {
    match named {
        Ok(a) => r matches Ok(s) && s@ == a,
        Err(m) => r matches Err(AppError::Parse(t)) && t@ == m,
    }
}

/// Hands an address on, or wraps the words of the failure to build it.
pub fn address_result(r: Result<String, String>) -> (out: AppResult<String>)
    ensures
        is_address(out, text_result(r)),
{
    match r {
        Ok(s) => Ok(s),
        Err(m) => Err(AppError::Parse(m)),
    }
}

/// The portal's configuration: the base address of its API. It is made once
/// at start-up and only read afterwards.
#[derive(Debug, PartialEq, Eq)]
pub struct AppConfig {
    /// The base address as it stands in the configuration.
    api: String,
    /// The base address as the `url` crate writes it.
    address: String,
}

impl View for AppConfig {
    type V = Seq<char>;

    /// The base address, as it stands in the configuration.
    closed spec fn view(&self) -> Seq<char> {
        self.api@
    }
}

impl Clone for AppConfig {
    fn clone(&self) -> (r: Self)
        ensures
            r == *self,
    {
        proof {
            use_type_invariant(self);
        }
        AppConfig { api: self.api.clone(), address: self.address.clone() }
    }
}

impl AppConfig {
    #[verifier::type_invariant]
    spec fn parses(self) -> bool {
        url_parsed(self.api@) == Ok::<Seq<char>, Seq<char>>(self.address@)
    }

    /// Accepts a base address that parses; one that does not is a failure of
    /// the whole application.
    pub fn new(api: String) -> (r: AppResult<Self>)
        ensures
            match url_parsed(api@) {
                Ok(_) => r matches Ok(cfg) && cfg@ == api@,
                Err(m) => r matches Err(AppError::Parse(t)) && t@ == m,
            },
    {
        match parse_url(api.as_str()) {
            Ok(address) => Ok(AppConfig { api, address }),
            Err(m) => Err(AppError::Parse(m)),
        }
    }

    /// The base address as it stands in the configuration; it parses.
    pub fn api(&self) -> (r: &str)
        ensures
            r@ == self@,
            url_parsed(r@) is Ok,
    {
        proof {
            use_type_invariant(self);
        }
        self.api.as_str()
    }

    /// The base address as the `url` crate writes it: where the request for
    /// the anti-forgery token goes, and what is shown beside a failure.
    pub fn address(&self) -> (r: String)
        ensures
            url_parsed(self@) == Ok::<Seq<char>, Seq<char>>(r@),
    {
        proof {
            use_type_invariant(self);
        }
        self.address.clone()
    }

    /// The address of `path` below the base address.
    pub fn join(&self, path: &str) -> (r: AppResult<String>)
        ensures
            is_address(r, url_joined(self@, path@)),
    {
        address_result(join_url(self.api.as_str(), path))
    }

    /// The anti-forgery token of an answer from the base address: the value of
    /// its `x-csrf-token` header, empty where the header is missing. A request
    /// that did not get through keeps its failure.
    pub fn get_token(res: AppResult<Option<String>>) -> (r: AppResult<String>)
        ensures
            match res {
                Ok(Some(token)) => r == Ok::<String, AppError>(token),
                Ok(None) => r matches Ok(token) && token@ == Seq::<char>::empty(),
                Err(e) => r == Err::<String, AppError>(e),
            },
    {
        match res {
            Ok(Some(token)) => Ok(token),
            Ok(None) => Ok(String::new()),
            Err(e) => Err(e),
        }
    }
}

/// A well-formed answer whose status is not a success: the status and the
/// body as text.
#[derive(Debug, PartialEq, Eq)]
pub struct FetchOther {
    pub status: u16,
    pub msg: String,
}

impl Clone for FetchOther {
    fn clone(&self) -> (r: Self)
        ensures
            r == *self,
    {
        FetchOther { status: self.status, msg: self.msg.clone() }
    }
}

/// What came back for a request that got through: the status and the body,
/// read as text.
#[derive(Debug, PartialEq, Eq)]
pub struct RawResponse {
    pub status: u16,
    pub body: String,
}

/// A status from 200 up to, not including, 300.
pub open spec fn is_success(status: u16) -> bool {
    200 <= status < 300
}

/// Whether a status is a success. Only the body of an answer that is not a
/// success needs to be read where a success carries nothing.
pub fn status_is_success(status: u16) -> (r: bool)
    ensures
        r == is_success(status),
{
    200 <= status && status < 300
}

impl RawResponse {
    /// Whether the status is a success.
    pub fn ok(&self) -> (r: bool)
        ensures
            r == is_success(self.status),
    {
        status_is_success(self.status)
    }
}

/// The answer to a request that got through: the decoded body of a success,
/// or the status and text of anything else. A request that did not get
/// through is the `Err` of an [`AppResult`] around this.
#[derive(Debug, PartialEq, Eq)]
pub enum FetchRes<T> {
    Body(T),
    Other(FetchOther),
}

impl<T> FetchRes<T> {
    /// Whether `r` is an outcome of the exchange `res` when bodies are decoded
    /// by `decode`.
    ///
    /// A request that failed keeps its failure. A success status hands the
    /// body to `decode`: what `decode` makes of it is the body of the outcome,
    /// and a body that `decode` refuses is a failure like any other. Every
    /// other status gives `Other`, with the body as its message.
    pub open spec fn is_outcome<F: FnOnce(String) -> AppResult<T>>(
        res: AppResult<RawResponse>,
        decode: F,
        r: AppResult<FetchRes<T>>,
    ) -> bool {
        match res {
            Err(e) => r == Err::<FetchRes<T>, AppError>(e),
            Ok(raw) => if is_success(raw.status) {
                match r {
                    Ok(FetchRes::Body(t)) => call_ensures(decode, (raw.body,), Ok(t)),
                    Ok(FetchRes::Other(_)) => false,
                    Err(e) => call_ensures(decode, (raw.body,), Err(e)),
                }
            } else {
                r == Ok::<FetchRes<T>, AppError>(
                    FetchRes::Other(FetchOther { status: raw.status, msg: raw.body }),
                )
            },
        }
    }

    /// Turns the result of sending a request into its outcome. Nothing is
    /// retried here.
    pub fn try_from_gloo_res<F: FnOnce(String) -> AppResult<T>>(
        res: AppResult<RawResponse>,
        decode: F,
    ) -> (r: AppResult<Self>)
        requires
            res matches Ok(raw) ==> is_success(raw.status) ==> call_requires(decode, (raw.body,)),
        ensures
            Self::is_outcome(res, decode, r),
    {
        match res {
            Err(e) => Err(e),
            Ok(raw) => {
                if raw.ok() {
                    match decode(raw.body) {
                        Ok(t) => Ok(FetchRes::Body(t)),
                        Err(e) => Err(e),
                    }
                } else {
                    Ok(FetchRes::Other(FetchOther { status: raw.status, msg: raw.body }))
                }
            },
        }
    }

    /// `Other` is only ever made of a status that is not a success.
    pub proof fn lemma_other_is_not_success<F: FnOnce(String) -> AppResult<T>>(
        res: AppResult<RawResponse>,
        decode: F,
        r: AppResult<FetchRes<T>>,
    )
        requires
            Self::is_outcome(res, decode, r),
        ensures
            r matches Ok(FetchRes::Other(o)) ==> !is_success(o.status) && res == Ok::<
                RawResponse,
                AppError,
            >(RawResponse { status: o.status, body: o.msg }),
    {
    }
}

} // verus!
