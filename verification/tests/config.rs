use thesis_portal::models::common::{address_result, AppConfig, AppError, Timestamp};
use thesis_portal::models::oid::ObjectId;
use thesis_portal::models::profile::{Profile, PublicProfile, Setting};
use thesis_portal::models::request::{Method, Payload, Request};
use thesis_portal::models::review::Review;
use thesis_portal::models::thesis::Thesis;
use thesis_portal::models::version::{Capabilities, ReviewPattern, ReviewState, Version, VersionState};

const SAMPLE: &str = "507f1f77bcf86cd799439011";

fn cfg() -> AppConfig {
    AppConfig::new("https://api.example.com/".to_string()).unwrap()
}

fn id() -> ObjectId {
    ObjectId::parse_str(SAMPLE).unwrap()
}

#[test]
fn config_takes_an_address_that_parses() {
    let cfg = AppConfig::new("https://example.net".to_string()).unwrap();
    // kept as it stands in the configuration
    assert_eq!(cfg.api(), "https://example.net");
    // written out as the url crate writes it
    assert_eq!(cfg.address(), "https://example.net/");
}

#[test]
fn config_refuses_an_address_that_does_not_parse() {
    assert_eq!(
        AppConfig::new("not an address".to_string()),
        Err(AppError::Parse("relative URL without a base".to_string()))
    );
    assert_eq!(
        AppConfig::new(String::new()),
        Err(AppError::Parse("relative URL without a base".to_string()))
    );
    assert_eq!(
        AppConfig::new("https://".to_string()),
        Err(AppError::Parse("empty host".to_string()))
    );
    assert_eq!(
        AppConfig::new("https://example.com:99999/".to_string()),
        Err(AppError::Parse("invalid port number".to_string()))
    );
}

#[test]
fn config_join_goes_below_the_base() {
    assert_eq!(cfg().join("login"), Ok("https://api.example.com/login".to_string()));
    let deep = AppConfig::new("https://example.com/api/v1/".to_string()).unwrap();
    assert_eq!(deep.join("login"), Ok("https://example.com/api/v1/login".to_string()));
    // without the closing slash the last part of the base gives way
    let file = AppConfig::new("https://example.com/api/v1".to_string()).unwrap();
    assert_eq!(file.join("login"), Ok("https://example.com/api/login".to_string()));
}

#[test]
fn config_join_fails_on_a_base_that_cannot_be_one() {
    let cfg = AppConfig::new("mailto:admin@example.com".to_string()).unwrap();
    assert_eq!(
        cfg.join("login"),
        Err(AppError::Parse("relative URL with a cannot-be-a-base base".to_string()))
    );
    assert_eq!(
        PublicProfile::try_get(&cfg, id()),
        Err(AppError::Parse("relative URL with a cannot-be-a-base base".to_string()))
    );
}

#[test]
fn config_profile_request_is_public() {
    assert_eq!(
        PublicProfile::try_get(&cfg(), id()),
        Ok(Request {
            method: Method::Get,
            url: "https://api.example.com/profiles/507f1f77bcf86cd799439011".to_string(),
            credentials: false,
            csrf_token: None,
            payload: Payload::Empty,
        })
    );
}

#[test]
fn config_thesis_request_is_public() {
    assert_eq!(
        Thesis::try_get(&cfg(), id()),
        Ok(Request {
            method: Method::Get,
            url: "https://api.example.com/theses/507f1f77bcf86cd799439011".to_string(),
            credentials: false,
            csrf_token: None,
            payload: Payload::Empty,
        })
    );
}

#[test]
fn config_version_request_carries_credentials() {
    assert_eq!(
        Version::try_get(&cfg(), id()),
        Ok(Request {
            method: Method::Get,
            url: "https://api.example.com/versions/507f1f77bcf86cd799439011".to_string(),
            credentials: true,
            csrf_token: None,
            payload: Payload::Empty,
        })
    );
}

#[test]
fn config_review_request_carries_credentials() {
    assert_eq!(
        Review::try_get(&cfg(), id()),
        Ok(Request {
            method: Method::Get,
            url: "https://api.example.com/reviews/507f1f77bcf86cd799439011".to_string(),
            credentials: true,
            csrf_token: None,
            payload: Payload::Empty,
        })
    );
}

#[test]
fn config_request_to_path() {
    assert_eq!(
        Request::to_path(&cfg(), Method::Patch, "a/b", true, Payload::Form),
        Ok(Request {
            method: Method::Patch,
            url: "https://api.example.com/a/b".to_string(),
            credentials: true,
            csrf_token: None,
            payload: Payload::Form,
        })
    );
}

#[test]
fn config_defaults() {
    assert_eq!(Setting::default(), Setting { email_notice: true, push: true });
    assert_eq!(VersionState::default(), VersionState::Uploaded);
    assert_eq!(ReviewPattern::default(), ReviewPattern::Reviewer);
    assert_eq!(ReviewState::default(), ReviewState::new(vec![], ReviewPattern::Reviewer).unwrap());
    assert!(ReviewState::default().remainder_reviewer_ids().is_empty());
    assert_eq!(ReviewState::default().pattern(), &ReviewPattern::Reviewer);
}

#[test]
fn config_referees_are_a_set() {
    let a = ObjectId::parse_str("507f1f77bcf86cd799439011").unwrap();
    let b = ObjectId::parse_str("507f1f77bcf86cd799439012").unwrap();
    let c = ObjectId::parse_str("507f1f77bcf86cd799439013").unwrap();
    let state = ReviewState::new(vec![b, a, c], ReviewPattern::Editor(a)).unwrap();
    assert_eq!(state.remainder_reviewer_ids(), &vec![b, a, c]);
    assert_eq!(state.pattern(), &ReviewPattern::Editor(a));
    assert_eq!(state.clone(), state);
    assert_eq!(ReviewState::new(vec![a, b, a], ReviewPattern::Reviewer), None);
    assert_eq!(ReviewState::new(vec![a, a], ReviewPattern::Reviewer), None);
    assert_eq!(ReviewState::new(vec![a, b, c, c], ReviewPattern::Reviewer), None);
    assert!(ReviewState::new(vec![a], ReviewPattern::Reviewer).is_some());
}

#[test]
fn config_capabilities() {
    assert_eq!(Capabilities::none(), Capabilities { edit: false, review: false, adjudge: false });
    assert_eq!(Capabilities::all(), Capabilities { edit: true, review: true, adjudge: true });
    assert!(Capabilities::none().is_none());
    assert!(!Capabilities::all().is_none());
    assert!(!Capabilities { edit: false, review: true, adjudge: false }.is_none());
}

#[test]
fn config_profile_clone_keeps_everything() {
    let p = PublicProfile {
        _id: id(),
        email: "ada@example.com".to_string(),
        avatar_id: Some(id()),
        joining_at: Timestamp { secs: 1_700_000_000, nanos: 5 },
        name: "Ada".to_string(),
    };
    assert_eq!(p.clone(), p);
    let own = Profile { public_profile: p.clone(), setting: Setting::default() };
    assert_eq!(own.public_profile, p);
    assert_eq!(cfg().clone(), cfg());
}

#[test]
fn config_address_or_failure() {
    assert_eq!(address_result(Ok("https://a.example/".to_string())), Ok("https://a.example/".to_string()));
    assert_eq!(
        address_result(Err("empty host".to_string())),
        Err(AppError::Parse("empty host".to_string()))
    );
}

#[test]
fn config_request_to_an_address() {
    assert_eq!(
        Request::to_address(Method::Post, Ok("https://a.example/x".to_string()), false, Payload::Form),
        Ok(Request {
            method: Method::Post,
            url: "https://a.example/x".to_string(),
            credentials: false,
            csrf_token: None,
            payload: Payload::Form,
        })
    );
    assert_eq!(
        Request::to_address(
            Method::Get,
            Err(AppError::Parse("invalid port number".to_string())),
            true,
            Payload::Empty
        ),
        Err(AppError::Parse("invalid port number".to_string()))
    );
}
