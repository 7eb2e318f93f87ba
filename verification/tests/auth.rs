use thesis_portal::app::{app, Boot, BootFailure, CONFIG_PATH, LOADING};
use thesis_portal::models::common::{AppConfig, AppError, AppResult, FetchOther, FetchRes};
use thesis_portal::models::request::{Method, Payload, Request};
use thesis_portal::views::login::{
    auth_view, login_post, login_view, posted, AuthBody, AuthView, SERVER_FAULT,
};
use thesis_portal::views::route::Route;
use thesis_portal::views::signup::{good_password, signup_post, signup_view, SignupBody};

const ADVICE: &str = "Please report this error to our administrator!";

fn cfg() -> AppConfig {
    AppConfig::new("https://api.example.com".to_string()).unwrap()
}

fn body() -> AuthBody {
    AuthBody { password: "hunter2".to_string(), email: "ada@example.com".to_string() }
}

fn new_user() -> SignupBody {
    SignupBody {
        password: "hunter2".to_string(),
        email: "ada@example.com".to_string(),
        name: "Ada".to_string(),
    }
}

#[test]
fn login_request_carries_cookies_and_no_token() {
    assert_eq!(
        login_post(&cfg(), body(), Ok("tok".to_string())),
        Ok(Request {
            method: Method::Post,
            url: "https://api.example.com/login".to_string(),
            credentials: true,
            csrf_token: None,
            payload: Payload::Login {
                email: "ada@example.com".to_string(),
                password: "hunter2".to_string(),
            },
        })
    );
}

#[test]
fn login_without_token_fails() {
    assert_eq!(
        login_post(&cfg(), body(), Err(AppError::Response("offline".to_string()))),
        Err(AuthView::Fatal { text: "offline".to_string(), advice: ADVICE, api: None })
    );
}

#[test]
fn login_that_cannot_be_addressed_shows_the_base() {
    let bad = AppConfig::new("mailto:admin@example.com".to_string()).unwrap();
    assert_eq!(
        login_post(&bad, body(), Ok(String::new())),
        Err(AuthView::Fatal {
            text: "relative URL with a cannot-be-a-base base".to_string(),
            advice: ADVICE,
            api: Some("mailto:admin@example.com".to_string()),
        })
    );
}

#[test]
fn login_answers() {
    assert_eq!(login_view(Ok(FetchRes::Body(()))), AuthView::Redirect(Route::Home));
    assert_eq!(SERVER_FAULT, 500);
    assert_eq!(
        login_view(Ok(FetchRes::Other(FetchOther { status: 500, msg: "boom".to_string() }))),
        AuthView::ServerFault { status: 500, msg: "boom".to_string(), advice: ADVICE }
    );
    assert_eq!(
        login_view(Ok(FetchRes::Other(FetchOther { status: 401, msg: "wrong password".to_string() }))),
        AuthView::Message("wrong password".to_string())
    );
    assert_eq!(
        login_view(Ok(FetchRes::Other(FetchOther { status: 501, msg: "not yet".to_string() }))),
        AuthView::Message("not yet".to_string())
    );
    assert_eq!(
        login_view(Err(AppError::Response("offline".to_string()))),
        AuthView::Fatal { text: "offline".to_string(), advice: ADVICE, api: None }
    );
    assert_eq!(auth_view(Ok(FetchRes::Body(())), Route::Signup), AuthView::Redirect(Route::Signup));
}

#[test]
fn signup_request_carries_the_token_and_no_cookies() {
    assert_eq!(
        signup_post(&cfg(), new_user(), Ok("tok".to_string())),
        Ok(Request {
            method: Method::Post,
            url: "https://api.example.com/signup".to_string(),
            credentials: false,
            csrf_token: Some("tok".to_string()),
            payload: Payload::Signup {
                email: "ada@example.com".to_string(),
                password: "hunter2".to_string(),
                name: "Ada".to_string(),
            },
        })
    );
    assert_eq!(
        signup_post(&cfg(), new_user(), Err(AppError::Response("offline".to_string()))),
        Err(AuthView::Fatal { text: "offline".to_string(), advice: ADVICE, api: None })
    );
}

#[test]
fn signup_answers() {
    assert_eq!(signup_view(Ok(FetchRes::Body(()))), AuthView::Redirect(Route::Login));
    assert_eq!(
        signup_view(Ok(FetchRes::Other(FetchOther { status: 409, msg: "taken".to_string() }))),
        AuthView::Message("taken".to_string())
    );
    assert_eq!(
        signup_view(Ok(FetchRes::Other(FetchOther { status: 500, msg: "boom".to_string() }))),
        AuthView::ServerFault { status: 500, msg: "boom".to_string(), advice: ADVICE }
    );
}

#[test]
fn signup_password_must_be_typed_twice() {
    let s = |t: &str| t.to_string();
    assert!(good_password(&s("hunter2"), &s("hunter2")));
    assert!(!good_password(&s("hunter2"), &s("hunter3")));
    assert!(!good_password(&s("hunter2"), &s("")));
    assert!(!good_password(&s(""), &s("hunter2")));
    assert!(!good_password(&s(""), &s("")));
    assert!(!good_password(&s("Hunter2"), &s("hunter2")));
}

fn api_field(document: String) -> AppResult<String> {
    document
        .strip_prefix("api=")
        .map(|s| s.to_string())
        .ok_or(AppError::Json("missing field `api`".to_string()))
}

#[test]
fn boot_with_a_good_configuration() {
    assert_eq!(CONFIG_PATH, "/config.json");
    assert_eq!(LOADING, "Loading website configuration...");
    assert_eq!(
        app(Ok("api=https://api.example.com/".to_string()), api_field),
        Boot::Ready(AppConfig::new("https://api.example.com/".to_string()).unwrap())
    );
}

#[test]
fn boot_without_the_document() {
    assert_eq!(
        app(Err(AppError::Response("offline".to_string())), api_field),
        Boot::Fatal(BootFailure { text: "offline".to_string(), advice: ADVICE, document: None })
    );
}

#[test]
fn boot_with_a_malformed_document() {
    assert_eq!(
        app(Ok("{}".to_string()), api_field),
        Boot::Fatal(BootFailure {
            text: "missing field `api`".to_string(),
            advice: ADVICE,
            document: Some("{}".to_string()),
        })
    );
}

#[test]
fn boot_with_a_base_address_that_does_not_parse() {
    assert_eq!(
        app(Ok("api=nowhere".to_string()), api_field),
        Boot::Fatal(BootFailure {
            text: "relative URL without a base".to_string(),
            advice: ADVICE,
            document: Some("api=nowhere".to_string()),
        })
    );
}

#[test]
fn login_posted_to_a_given_address() {
    assert_eq!(
        posted(Ok("https://a.example/login".to_string()), "https://a.example/".to_string(), true, None, Payload::Empty),
        Ok(Request {
            method: Method::Post,
            url: "https://a.example/login".to_string(),
            credentials: true,
            csrf_token: None,
            payload: Payload::Empty,
        })
    );
    assert_eq!(
        posted(
            Err(AppError::Parse("empty host".to_string())),
            "https://a.example/".to_string(),
            false,
            Some("tok".to_string()),
            Payload::Empty
        ),
        Err(AuthView::Fatal {
            text: "empty host".to_string(),
            advice: ADVICE,
            api: Some("https://a.example/".to_string()),
        })
    );
}
