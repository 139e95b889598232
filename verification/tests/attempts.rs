use browser_for_remote::action::Action;
use browser_for_remote::attempt::Attempt;
use browser_for_remote::remote::{first_new_tab_page, page_socket_url};
use browser_for_remote::scheduler::Failure;
use browser_for_remote::tab::{TabKind, TabSnapshot};

#[test]
fn opening_the_new_tab_page_falls_back_to_about_blank() {
    let first = Action::Open("chrome://newtab/".to_string()).first_attempt();
    assert_eq!(first, Attempt::OpenAt("chrome://newtab/".to_string()));
    let second = first.after_failure();
    assert_eq!(second, Some(Attempt::NavigateTo("about:blank".to_string())));
    assert_eq!(second.unwrap().after_failure(), None);
}

#[test]
fn opening_anything_else_has_no_second_way() {
    let first = Action::Open("https://example.com".to_string()).first_attempt();
    assert_eq!(first, Attempt::OpenAt("https://example.com".to_string()));
    assert_eq!(first.after_failure(), None);
    assert_eq!(Attempt::OpenAt("about:blank".to_string()).after_failure(), None);
}

#[test]
fn focusing_falls_back_from_bringing_to_front_to_activating() {
    let first = Action::Focus("t".to_string()).first_attempt();
    assert_eq!(first, Attempt::BringToFront("t".to_string()));
    let second = first.after_failure();
    assert_eq!(second, Some(Attempt::Activate("t".to_string())));
    assert_eq!(second.unwrap().after_failure(), None);
}

#[test]
fn closing_is_tried_once() {
    let first = Action::Close("t".to_string()).first_attempt();
    assert_eq!(first, Attempt::Close("t".to_string()));
    assert_eq!(first.after_failure(), None);
}

#[test]
fn only_a_startup_failure_is_fatal() {
    assert!(Failure::Startup.is_fatal());
    assert!(!Failure::TransientFetch.is_fatal());
    assert!(!Failure::SessionLost.is_fatal());
    assert!(!Failure::Action.is_fatal());
}

#[test]
fn the_first_new_tab_page_is_found() {
    let snapshot = vec![
        TabSnapshot::page("a", "https://example.com"),
        TabSnapshot::page("b", "about:blank"),
        TabSnapshot {
            id: "w".to_string(),
            kind: TabKind::Other,
            url: "chrome://newtab/".to_string(),
        },
        TabSnapshot::page("n1", "chrome://newtab/"),
        TabSnapshot::page("n2", "chrome://newtab/"),
    ];
    assert_eq!(first_new_tab_page(&snapshot), Some(3));
    assert_eq!(first_new_tab_page(&snapshot[..3].to_vec()), None);
    assert_eq!(first_new_tab_page(&Vec::new()), None);
}

#[test]
fn the_socket_address_of_a_page() {
    assert_eq!(page_socket_url("AB12"), "ws://127.0.0.1:9222/devtools/page/AB12");
    assert_eq!(page_socket_url(""), "ws://127.0.0.1:9222/devtools/page/");
}
