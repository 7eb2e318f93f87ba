//! Requests, described as plain values: the application sends them.

use vstd::prelude::*;
use vstd::string::StringExecFns;
use crate::models::common::{AppConfig, AppError, AppResult};
use crate::models::address::url_joined;
use crate::models::oid::{encode_hex, ObjectId};
use crate::models::version::ReviewPattern;

verus! {

/// The verbs that the portal's API takes.
#[derive(Clone, Copy, Debug, PartialEq, Eq, Structural)]
pub enum Method {
    Get,
    Head,
    Post,
    Patch,
}

/// What a request carries.
#[derive(Debug, PartialEq, Eq)]
pub enum Payload {
    /// Nothing.
    Empty,
    /// A referee's judgement and criticism, sent as JSON.
    Review { judgement: bool, criticism: String },
    /// The referees that are still to review, and who reviews, sent as JSON.
    ReviewerSet { remainder_reviewer_ids: Vec<ObjectId>, pattern: ReviewPattern },
    /// The form that the user filled in, sent as it is (multipart).
    Form,
    /// A new thesis, sent as JSON.
    Thesis { title: String, abstraction: String, author_ids: Vec<ObjectId>, keywords: Vec<String> },
    /// The credentials of a user who logs in, sent as JSON.
    Login { email: String, password: String },
    /// What a new user signs up with, sent as JSON.
    Signup { email: String, password: String, name: String },
}

/// One request to the portal's API.
#[derive(Debug, PartialEq, Eq)]
pub struct Request {
    pub method: Method,
    /// The full address.
    pub url: String,
    /// Whether the browser's cookies go with it.
    pub credentials: bool,
    /// The anti-forgery token that goes in the `x-csrf-token` header, if one
    /// goes with it.
    pub csrf_token: Option<String>,
    pub payload: Payload,
}

/// Whether `r` is the request with this verb, credentials and payload, and
/// without a token, to the address that `named` stands for, or, where
/// `named` is a failure, that failure as an [`AppError::Parse`].
pub open spec fn is_request(
    r: AppResult<Request>,
    method: Method,
    named: Result<Seq<char>, Seq<char>>,
    credentials: bool,
    payload: Payload,
) -> bool {
    match named {
        Ok(a) => r matches Ok(req) && req.method == method && req.url@ == a && req.credentials
            == credentials && req.csrf_token is None && req.payload == payload,
        Err(m) => r matches Err(AppError::Parse(t)) && t@ == m,
    }
}

/// As [`is_request`], for a payload that is known by what it holds.
pub open spec fn is_request_with(
    r: AppResult<Request>,
    method: Method,
    named: Result<Seq<char>, Seq<char>>,
    credentials: bool,
    holds: spec_fn(Payload) -> bool,
) -> bool {
    match named {
        Ok(a) => r matches Ok(req) && req.method == method && req.url@ == a && req.credentials
            == credentials && req.csrf_token is None && holds(req.payload),
        Err(m) => r matches Err(AppError::Parse(t)) && t@ == m,
    }
}

/// The path of an entity below the base address: a collection's prefix and
/// the entity's identifier in hexadecimal.
pub(crate) fn entity_path(prefix: &str, id: &ObjectId) -> (path: String)
    ensures
        path@ == prefix@ + encode_hex(id@),
{
    let mut path = String::from_str(prefix);
    let hex = id.to_hex();
    path.append(hex.as_str());
    path
}

impl Request {
    /// The request with this verb, credentials and payload, and without a
    /// token, to an address that was built; a failure to build the address
    /// is handed on.
    pub fn to_address(
        method: Method,
        address: AppResult<String>,
        credentials: bool,
        payload: Payload,
    ) -> (r: AppResult<Request>)
        ensures
            r == match address {
                Ok(url) => Ok::<Request, AppError>(
                    Request { method, url, credentials, csrf_token: None, payload },
                ),
                Err(e) => Err::<Request, AppError>(e),
            },
    {
        match address {
            Ok(url) => Ok(Request { method, url, credentials, csrf_token: None, payload }),
            Err(e) => Err(e),
        }
    }

    /// The request with this verb, credentials and payload to `path` below
    /// the base address.
    pub fn to_path(
        cfg: &AppConfig,
        method: Method,
        path: &str,
        credentials: bool,
        payload: Payload,
    ) -> (r: AppResult<Request>)
        ensures
            is_request(r, method, url_joined(cfg@, path@), credentials, payload),
    {
        Request::to_address(method, cfg.join(path), credentials, payload)
    }
}

} // verus!
