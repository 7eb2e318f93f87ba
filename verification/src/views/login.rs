//! Logging in.

use vstd::prelude::*;
use crate::models::address::{url_joined, url_parsed};
use crate::models::common::{AppConfig, AppResult, FetchRes, REPORT_ADVICE};
use crate::models::request::{Method, Payload, Request};
use crate::views::route::Route;

verus! {

/// The status that the server answers with when the fault is its own.
pub const SERVER_FAULT: u16 = 500;

/// What a user logs in with.
#[derive(Debug, PartialEq, Eq)]
pub struct AuthBody {
    pub password: String,
    pub email: String,
}

/// What is shown below the form once the server has answered, or once it is
/// clear that it cannot be asked.
#[derive(Debug, PartialEq, Eq)]
pub enum AuthView {
    /// Go to this route: it worked.
    Redirect(Route),
    /// The server's own words: the user can mend this.
    Message(String),
    /// The server's fault: its status and words, and the advice to report
    /// it.
    ServerFault { status: u16, msg: String, advice: &'static str },
    /// A failure: its text, the advice to report it, and the base address
    /// where the failure lies in addressing the request.
    Fatal { text: String, advice: &'static str, api: Option<String> },
}

/// Whether `v` is the failure panel with this text and this base address.
pub open spec fn is_auth_failure(v: AuthView, text: Seq<char>, shown: Option<Seq<char>>) -> bool {
    &&& v matches AuthView::Fatal { text: t, advice, api }
    &&& t@ == text
    &&& advice@ == REPORT_ADVICE@
    &&& match shown {
        Some(a) => api matches Some(s) && s@ == a,
        None => api is None,
    }
}

/// Whether `v` is what is shown for the `outcome` of a request that leads to
/// `to` when it works.
pub open spec fn is_auth_view(outcome: AppResult<FetchRes<()>>, to: Route, v: AuthView) -> bool {
    match outcome {
        Ok(FetchRes::Body(_)) => v == AuthView::Redirect(to),
        Ok(FetchRes::Other(other)) => if other.status == SERVER_FAULT {
            v matches AuthView::ServerFault { status, msg, advice } && status == other.status
                && msg == other.msg && advice@ == REPORT_ADVICE@
        } else {
            v == AuthView::Message(other.msg)
        },
        Err(e) => is_auth_failure(v, e.message(), None),
    }
}

/// What is shown for the `outcome` of logging in or signing up.
pub fn auth_view(outcome: AppResult<FetchRes<()>>, to: Route) -> (v: AuthView)
    ensures
        is_auth_view(outcome, to, v),
{
    match outcome {
        Ok(FetchRes::Body(_)) => AuthView::Redirect(to),
        Ok(FetchRes::Other(other)) => {
            if other.status == SERVER_FAULT {
                AuthView::ServerFault {
                    status: other.status,
                    msg: other.msg,
                    advice: REPORT_ADVICE,
                }
            } else {
                AuthView::Message(other.msg)
            }
        },
        Err(e) => AuthView::Fatal { text: e.to_string(), advice: REPORT_ADVICE, api: None },
    }
}

/// Whether `r` is the request that posts `payload` to `path` below the base
/// address `api`, or, where that cannot be addressed, the failure panel with
/// the base address, as the `url` crate writes it, beside the failure.
pub open spec fn is_auth_request(
    r: Result<Request, AuthView>,
    api: Seq<char>,
    path: Seq<char>,
    credentials: bool,
    csrf_token: Option<String>,
    payload: Payload,
) -> bool {
    match url_joined(api, path) {
        Ok(a) => r matches Ok(req) && req.method == Method::Post && req.url@ == a
            && req.credentials == credentials && req.csrf_token == csrf_token && req.payload
            == payload,
        Err(m) => r matches Err(v) && url_parsed(api) matches Ok(shown) && is_auth_failure(
            v,
            m,
            Some(shown),
        ),
    }
}

/// The request that posts `payload` to an address that was built, or what
/// is shown where it could not be built: the failure, with the base address
/// `api` beside it.
pub fn posted(
    address: AppResult<String>,
    api: String,
    credentials: bool,
    csrf_token: Option<String>,
    payload: Payload,
) -> (r: Result<Request, AuthView>)
    ensures
        match address {
            Ok(url) => r == Ok::<Request, AuthView>(
                Request { method: Method::Post, url, credentials, csrf_token, payload },
            ),
            Err(e) => r matches Err(v) && is_auth_failure(v, e.message(), Some(api@)),
        },
{
    match address {
        Ok(url) => Ok(Request { method: Method::Post, url, credentials, csrf_token, payload }),
        Err(e) => Err(
            AuthView::Fatal { text: e.to_string(), advice: REPORT_ADVICE, api: Some(api) },
        ),
    }
}

/// The request that posts `payload` to `path` below the base address, or
/// what is shown where it cannot be addressed.
pub(crate) fn auth_request(
    cfg: &AppConfig,
    path: &str,
    credentials: bool,
    csrf_token: Option<String>,
    payload: Payload,
) -> (r: Result<Request, AuthView>)
    ensures
        is_auth_request(r, cfg@, path@, credentials, csrf_token, payload),
{
    posted(cfg.join(path), cfg.address(), credentials, csrf_token, payload)
}

/// What logging in leads to, once the token has been asked for: the request
/// to send, or what is shown in its place.
///
/// The token is asked for first, and a failure to get it ends the attempt;
/// the token itself does not go with the request, the user's cookies do.
pub fn login_post(cfg: &AppConfig, body: AuthBody, token: AppResult<String>) -> (r: Result<
    Request,
    AuthView,
>)
    ensures
        match token {
            Err(e) => r matches Err(v) && is_auth_failure(v, e.message(), None),
            Ok(_) => is_auth_request(
                r,
                cfg@,
                "login"@,
                true,
                None,
                Payload::Login { email: body.email, password: body.password },
            ),
        },
{
    match token {
        Err(e) => Err(AuthView::Fatal { text: e.to_string(), advice: REPORT_ADVICE, api: None }),
        Ok(_) => auth_request(
            cfg,
            "login",
            true,
            None,
            Payload::Login { email: body.email, password: body.password },
        ),
    }
}

/// What is shown once the server has answered a login: the front page where
/// it worked.
pub fn login_view(outcome: AppResult<FetchRes<()>>) -> (v: AuthView)
    ensures
        is_auth_view(outcome, Route::Home, v),
{
    auth_view(outcome, Route::Home)
}

} // verus!
