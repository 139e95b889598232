use browser_for_remote::action::Action;
use browser_for_remote::metadata::{ReconcilerState, TabMetadata};
use browser_for_remote::tab::TabSnapshot;

fn record(id: &str, url: &str, opened_at: u64, last_url_change_at: u64) -> TabMetadata {
    TabMetadata {
        id: id.to_string(),
        opened_at,
        last_url_change_at,
        current_url: url.to_string(),
    }
}

#[test]
fn new_external_tab_is_tracked_and_a_blank_tab_is_opened() {
    let mut state = ReconcilerState::new();
    let snapshot = vec![TabSnapshot::page("a", "https://example.com")];
    let actions = state.reconcile(&snapshot, 1_000, 300, 1);
    assert_eq!(actions, vec![Action::Open("chrome://newtab/".to_string())]);
    assert_eq!(state.len(), 1);
    let a = state.get(&"a".to_string()).expect("tab a is tracked");
    assert_eq!(a.current_url, "https://example.com");
    assert_eq!(a.opened_at, 1_000);
    assert_eq!(a.last_url_change_at, 1_000);
}

#[test]
fn stalled_tab_is_closed_and_forgotten() {
    let now = 10_000;
    let mut state = ReconcilerState::new();
    assert!(state.insert(record("a", "https://example.com", now - 900, now - 400)));
    let snapshot = vec![TabSnapshot::page("a", "https://example.com")];
    let actions = state.reconcile(&snapshot, now, 300, 0);
    assert_eq!(actions, vec![Action::Close("a".to_string())]);
    assert!(!state.contains(&"a".to_string()));
    assert!(state.is_empty());
}
