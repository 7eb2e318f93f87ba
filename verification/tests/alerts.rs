use thesis_portal::models::common::FetchOther;
use thesis_portal::views::alerts::{AlertBox, AlertBoxProps};

fn other(status: u16, msg: &str) -> FetchOther {
    FetchOther { status, msg: msg.to_string() }
}

#[test]
fn alerts_starts_empty() {
    assert_eq!(AlertBox::default().view(), None);
    assert_eq!(AlertBox::create(&AlertBoxProps { refresh: None }).view(), None);
}

#[test]
fn alerts_shows_what_it_was_handed() {
    let surface = AlertBox::create(&AlertBoxProps { refresh: Some(other(404, "no such thesis")) });
    assert_eq!(surface.view(), Some(&other(404, "no such thesis")));
}

#[test]
fn alerts_latest_alert_replaces_the_one_before() {
    let mut surface = AlertBox::default();
    surface.report(other(403, "forbidden"));
    surface.report(other(409, "conflict"));
    assert_eq!(surface.view(), Some(&other(409, "conflict")));
    assert!(surface.changed(&AlertBoxProps { refresh: Some(other(422, "bad input")) }));
    assert_eq!(surface.view(), Some(&other(422, "bad input")));
}

#[test]
fn alerts_changed_to_nothing_clears() {
    let mut surface = AlertBox::create(&AlertBoxProps { refresh: Some(other(403, "forbidden")) });
    assert!(surface.changed(&AlertBoxProps { refresh: None }));
    assert_eq!(surface.view(), None);
}

#[test]
fn alerts_dismissal_clears() {
    let mut surface = AlertBox::default();
    surface.report(other(403, "forbidden"));
    surface.dismiss();
    assert_eq!(surface.view(), None);
    surface.dismiss();
    assert_eq!(surface.view(), None);
}
