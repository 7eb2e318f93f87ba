use thesis_portal::models::common::{AppConfig, AppError, FetchOther, FetchRes, Timestamp};
use thesis_portal::models::oid::ObjectId;
use thesis_portal::models::profile::PublicProfile;
use thesis_portal::models::request::{Method, Payload, Request};
use thesis_portal::models::thesis::{Thesis, ThesisId};
use thesis_portal::views::loader::Loader;
use thesis_portal::views::route::{Route, Screen};
use thesis_portal::views::theses::get::page::{Page, PageEffect, PageMsg, PageProps, PageView, SOURCE_ACCEPT};
use thesis_portal::views::theses::get::GetProps;
use thesis_portal::views::theses::route::{Route as ThesesRoute, Screen as ThesesScreen};
use thesis_portal::views::tiny_profiles::{avatar_or_default, TinyProfileView, TinyView, DEFAULT_AVATAR};

const THESIS: &str = "507f1f77bcf86cd799439011";
const AUTHOR: &str = "507f1f77bcf86cd799439012";
const VERSION: &str = "507f1f77bcf86cd799439013";

fn oid(hex: &str) -> ObjectId {
    ObjectId::parse_str(hex).unwrap()
}

fn cfg() -> AppConfig {
    AppConfig::new("https://api.example.com/".to_string()).unwrap()
}

fn thesis() -> Thesis {
    Thesis {
        id: ThesisId {
            _id: oid(THESIS),
            owner_id: oid(AUTHOR),
            is_passed: false,
            created_at: Timestamp { secs: 1_700_000_000, nanos: 0 },
        },
        author_ids: vec![oid(AUTHOR)],
        doi: None,
        title: "On Proofs".to_string(),
        abstraction: "Proofs are good.".to_string(),
        keywords: vec!["logic".to_string(), "proof".to_string()],
        languages: vec!["en".to_string()],
    }
}

fn props() -> PageProps {
    PageProps { val: thesis(), cfg: cfg() }
}

#[test]
fn thesis_page_shows_the_thesis_and_the_form() {
    let page = Page::create();
    let p = props();
    match page.view(&p) {
        PageView::Thesis(shown) => {
            assert_eq!(shown.title, "On Proofs");
            assert_eq!(shown.author_ids, &vec![oid(AUTHOR)]);
            assert_eq!(shown.abstraction, "Proofs are good.");
            assert_eq!(shown.keywords, &vec!["logic".to_string(), "proof".to_string()]);
            assert_eq!(shown.form.release_accept, "application/pdf");
            assert_eq!(shown.form.source_accept, SOURCE_ACCEPT);
            assert!(shown.form.message_required);
            assert!(shown.form.release_required);
            assert!(!shown.form.source_required);
            assert_eq!(shown.alert, None);
        }
        other => panic!("expected the thesis, got {:?}", other),
    }
    assert_eq!(
        SOURCE_ACCEPT,
        ".tar.gz,.tgz,.tar.Z,.tar.bz2,.tbz2,.tar.lz,.tlz,.tar.xz,.txz,.tar.zst"
    );
}

#[test]
fn thesis_page_commit_request() {
    assert_eq!(
        props().commit(),
        Ok(Request {
            method: Method::Post,
            url: "https://api.example.com/theses/507f1f77bcf86cd799439011/commit".to_string(),
            credentials: true,
            csrf_token: None,
            payload: Payload::Form,
        })
    );
}

#[test]
fn thesis_page_sends_the_form() {
    let mut page = Page::default();
    let p = props();
    let (render, effect) = page.update(&p, PageMsg::File);
    assert!(render);
    assert_eq!(effect, PageEffect::Commit(p.commit().unwrap()));
    assert!(matches!(page.view(&p), PageView::Thesis(_)));
}

#[test]
fn thesis_page_commit_that_cannot_be_addressed_fails() {
    let mut page = Page::create();
    let p = PageProps {
        val: thesis(),
        cfg: AppConfig::new("mailto:admin@example.com".to_string()).unwrap(),
    };
    assert_eq!(page.update(&p, PageMsg::File), (true, PageEffect::Nothing));
    match page.view(&p) {
        PageView::Fatal(panel) => {
            assert_eq!(panel.text, "relative URL with a cannot-be-a-base base");
            assert_eq!(panel.advice, "Please report this error to our administrator!");
        }
        other => panic!("expected the failure panel, got {:?}", other),
    }
}

#[test]
fn thesis_page_commit_leads_to_the_new_version() {
    let mut page = Page::create();
    let p = props();
    let msg = Page::committed(Ok(FetchRes::Body(oid(VERSION))));
    assert_eq!(msg, PageMsg::Version(oid(VERSION)));
    assert_eq!(
        page.update(&p, msg),
        (false, PageEffect::Navigate(Route::Versions { id: oid(VERSION) }))
    );
    assert_eq!(Route::Versions { id: oid(VERSION) }.switch(), Screen::Version { id: oid(VERSION) });
}

#[test]
fn thesis_page_alert_and_failure() {
    let mut page = Page::create();
    let p = props();
    let o = FetchOther { status: 415, msg: "a PDF is needed".to_string() };
    let msg = Page::committed(Ok(FetchRes::Other(o.clone())));
    assert_eq!(msg, PageMsg::Alert(o.clone()));
    assert_eq!(page.update(&p, msg), (true, PageEffect::Nothing));
    match page.view(&p) {
        PageView::Thesis(shown) => assert_eq!(shown.alert, Some(&o)),
        other => panic!("expected the thesis, got {:?}", other),
    }
    let e = AppError::Response("network down".to_string());
    let msg = Page::committed(Err(e.clone()));
    assert_eq!(msg, PageMsg::Failure(e));
    assert_eq!(page.update(&p, msg), (true, PageEffect::Nothing));
    match page.view(&p) {
        PageView::Fatal(panel) => assert_eq!(panel.text, "network down"),
        other => panic!("expected the failure panel, got {:?}", other),
    }
}

#[test]
fn thesis_screen() {
    let props = GetProps { cfg: cfg(), id: oid(THESIS) };
    assert!(props.loader().is_pending());
    assert_eq!(props.loader().current(), oid(THESIS));
    assert_eq!(props.request(), Thesis::try_get(&cfg(), oid(THESIS)));
    assert_eq!(props.page(thesis()), PageProps { val: thesis(), cfg: cfg() });
}

#[test]
fn routes_lead_to_screens() {
    assert_eq!(Route::Home.switch(), Screen::Home);
    assert_eq!(Route::Signup.switch(), Screen::Signup);
    assert_eq!(Route::Login.switch(), Screen::Login);
    assert_eq!(Route::ThesesRoot.switch(), Screen::Theses);
    assert_eq!(Route::Theses.switch(), Screen::Theses);
    assert_eq!(ThesesRoute::New.switch(), ThesesScreen::Post);
    assert_eq!(ThesesRoute::List.switch(), ThesesScreen::Nothing);
    assert_eq!(
        ThesesRoute::View { id: oid(THESIS) }.switch(),
        ThesesScreen::Get {
            id: oid(THESIS),
            fallback: "Loading thesis 507f1f77bcf86cd799439011...".to_string(),
        }
    );
}

fn profile(avatar: Option<ObjectId>) -> PublicProfile {
    PublicProfile {
        _id: oid(AUTHOR),
        email: "ada@example.com".to_string(),
        avatar_id: avatar,
        joining_at: Timestamp { secs: 0, nanos: 0 },
        name: "Ada".to_string(),
    }
}

#[test]
fn tiny_profile_without_avatar() {
    assert_eq!(
        profile(None).view_tiny(&cfg()),
        TinyView { src: "/default.jpg".to_string(), name: "Ada".to_string() }
    );
}

#[test]
fn tiny_profile_with_avatar() {
    assert_eq!(
        profile(Some(oid(VERSION))).view_tiny(&cfg()),
        TinyView {
            src: "https://api.example.com/profiles/507f1f77bcf86cd799439013".to_string(),
            name: "Ada".to_string(),
        }
    );
    // an avatar whose address cannot be built falls back to the default
    let bad = AppConfig::new("mailto:admin@example.com".to_string()).unwrap();
    assert_eq!(
        profile(Some(oid(VERSION))).view_tiny(&bad),
        TinyView { src: "/default.jpg".to_string(), name: "Ada".to_string() }
    );
}

#[test]
fn tiny_profile_by_identifier() {
    let mut loader: Loader<PublicProfile> = Loader::new(oid(AUTHOR));
    assert_eq!(
        PublicProfile::tiny_from_id(oid(AUTHOR), &cfg(), &loader),
        TinyProfileView::Loading("Loading Tiny Profile 507f1f77bcf86cd799439012...".to_string())
    );
    loader.settle(oid(AUTHOR), Ok(FetchRes::Body(profile(None))));
    assert_eq!(
        PublicProfile::tiny_from_id(oid(AUTHOR), &cfg(), &loader),
        TinyProfileView::Tiny(TinyView { src: "/default.jpg".to_string(), name: "Ada".to_string() })
    );
    let mut loader: Loader<PublicProfile> = Loader::new(oid(AUTHOR));
    let o = FetchOther { status: 404, msg: "no such profile".to_string() };
    loader.settle(oid(AUTHOR), Ok(FetchRes::Other(o.clone())));
    assert_eq!(PublicProfile::tiny_from_id(oid(AUTHOR), &cfg(), &loader), TinyProfileView::Alert(&o));
    let mut loader: Loader<PublicProfile> = Loader::new(oid(AUTHOR));
    loader.settle(oid(AUTHOR), Err(AppError::Response("network down".to_string())));
    match PublicProfile::tiny_from_id(oid(AUTHOR), &cfg(), &loader) {
        TinyProfileView::Fatal(panel) => assert_eq!(panel.text, "network down"),
        other => panic!("expected the failure panel, got {:?}", other),
    }
}

#[test]
fn tiny_profile_avatar_or_default() {
    assert_eq!(DEFAULT_AVATAR, "/default.jpg");
    assert_eq!(avatar_or_default(None), "/default.jpg");
    assert_eq!(
        avatar_or_default(Some(Ok("https://api.example.com/profiles/1".to_string()))),
        "https://api.example.com/profiles/1"
    );
    assert_eq!(avatar_or_default(Some(Err(AppError::Parse("empty host".to_string())))), "/default.jpg");
}
