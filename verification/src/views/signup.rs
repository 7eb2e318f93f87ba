//! Signing up.

use vstd::prelude::*;
use crate::models::common::{AppConfig, AppResult, FetchRes, REPORT_ADVICE};
use crate::models::request::{Payload, Request};
use crate::views::login::{
    auth_request, auth_view, is_auth_failure, is_auth_request, is_auth_view, AuthView,
};
use crate::views::route::Route;

verus! {

/// What a new user signs up with.
#[derive(Debug, PartialEq, Eq)]
pub struct SignupBody {
    pub password: String,
    pub email: String,
    pub name: String,
}

/// Whether a password is good to sign up with: it was typed twice, the same
/// both times, and is not empty.
pub open spec fn is_good_password(password: Seq<char>, again: Seq<char>) -> bool {
    password.len() > 0 && again.len() > 0 && password == again
}

/// Whether the sign-up button is switched on.
pub fn good_password(password: &String, again: &String) -> (good: bool)
    ensures
        good == is_good_password(password@, again@),
{
    !password.as_str().is_empty() && !again.as_str().is_empty() && *password == *again
}

/// What signing up leads to, once the token has been asked for: the request
/// to send, or what is shown in its place.
///
/// The token is asked for first, and a failure to get it ends the attempt;
/// the token goes with the request, the user's cookies do not.
pub fn signup_post(cfg: &AppConfig, body: SignupBody, token: AppResult<String>) -> (r: Result<
    Request,
    AuthView,
>)
    ensures
        match token {
            Err(e) => r matches Err(v) && is_auth_failure(v, e.message(), None),
            Ok(t) => is_auth_request(
                r,
                cfg@,
                "signup"@,
                false,
                Some(t),
                Payload::Signup { email: body.email, password: body.password, name: body.name },
            ),
        },
{
    match token {
        Err(e) => Err(AuthView::Fatal { text: e.to_string(), advice: REPORT_ADVICE, api: None }),
        Ok(t) => auth_request(
            cfg,
            "signup",
            false,
            Some(t),
            Payload::Signup { email: body.email, password: body.password, name: body.name },
        ),
    }
}

/// What is shown once the server has answered a sign-up: the login screen
/// where it worked.
pub fn signup_view(outcome: AppResult<FetchRes<()>>) -> (v: AuthView)
    ensures
        is_auth_view(outcome, Route::Login, v),
{
    auth_view(outcome, Route::Login)
}

} // verus!
