use browser_for_remote::action::Action;
use browser_for_remote::config::Config;
use browser_for_remote::metadata::ReconcilerState;
use browser_for_remote::scheduler::{run_cycle, Command, Event, Phase, Scheduler};
use browser_for_remote::snapshot::SnapshotError;
use browser_for_remote::tab::TabSnapshot;

const ONE_TAB: &str = r#"[{"id": "a", "type": "page", "url": "https://example.com"}]"#;
const ONE_TAB_AND_A_BLANK: &str = r#"[
    {"id": "a", "type": "page", "url": "https://example.com"},
    {"id": "n", "type": "page", "url": "chrome://newtab/"}
]"#;

fn with_session() -> Scheduler {
    let mut scheduler = Scheduler::new(Config::default());
    scheduler.on_event(&Event::SessionAcquired, 0);
    scheduler
}

#[test]
fn a_new_scheduler_asks_for_a_session_with_a_configured_window() {
    let scheduler = Scheduler::new(Config::default());
    assert_eq!(scheduler.phase, Phase::NoSession);
    for _ in 0..50 {
        match scheduler.next_command() {
            Command::AcquireSession { width, height } => {
                assert!(scheduler.config.window_resolutions.contains(&(width, height)));
            }
            Command::FetchTabs => panic!("there is no session to poll"),
        }
    }
}

#[test]
fn without_resolutions_the_window_is_1920_by_1080() {
    let mut config = Config::default();
    config.window_resolutions.clear();
    let scheduler = Scheduler::new(config);
    assert_eq!(
        scheduler.next_command(),
        Command::AcquireSession { width: 1920, height: 1080 }
    );
}

#[test]
fn a_failed_start_is_retried_after_five_seconds() {
    let mut scheduler = Scheduler::new(Config::default());
    let step = scheduler.on_event(&Event::SessionFailed, 7);
    assert_eq!(scheduler.phase, Phase::NoSession);
    assert!(step.actions.is_empty());
    assert_eq!(step.wait_secs, 5);
    assert_eq!(step.error, None);
}

#[test]
fn a_started_session_is_polled_at_once() {
    let mut scheduler = Scheduler::new(Config::default());
    let step = scheduler.on_event(&Event::SessionAcquired, 7);
    assert_eq!(scheduler.phase, Phase::HasSession);
    assert!(scheduler.state.is_empty());
    assert!(step.actions.is_empty());
    assert_eq!(step.wait_secs, 0);
    assert_eq!(scheduler.next_command(), Command::FetchTabs);
}

#[test]
fn a_status_answer_runs_one_cycle() {
    let mut scheduler = with_session();
    let step = scheduler.on_event(&Event::Status(ONE_TAB.to_string()), 100);
    assert_eq!(scheduler.phase, Phase::HasSession);
    assert_eq!(step.actions, vec![Action::Open("chrome://newtab/".to_string())]);
    assert_eq!(step.wait_secs, 10);
    assert_eq!(step.error, None);
    assert_eq!(scheduler.state.get(&"a".to_string()).unwrap().last_url_change_at, 100);
}

#[test]
fn a_tab_is_closed_after_300_seconds_on_one_url() {
    let mut scheduler = with_session();
    let status = Event::Status(ONE_TAB_AND_A_BLANK.to_string());
    assert!(scheduler.on_event(&status, 100).actions.is_empty());
    assert!(scheduler.on_event(&status, 400).actions.is_empty());
    assert_eq!(
        scheduler.on_event(&status, 401).actions,
        vec![Action::Close("a".to_string())]
    );
    assert!(scheduler.state.is_empty());
}

#[test]
fn an_unreadable_answer_skips_the_cycle() {
    let mut scheduler = with_session();
    scheduler.on_event(&Event::Status(ONE_TAB.to_string()), 100);
    let before = scheduler.clone();
    let step = scheduler.on_event(&Event::Status("not json".to_string()), 900);
    assert_eq!(step.error, Some(SnapshotError::InvalidJson));
    assert!(step.actions.is_empty());
    assert_eq!(step.wait_secs, 10);
    assert_eq!(scheduler, before);
    let step = scheduler.on_event(&Event::Status("{}".to_string()), 900);
    assert_eq!(step.error, Some(SnapshotError::NotAList));
    assert_eq!(scheduler, before);
    let step = scheduler.on_event(&Event::Status("[{\"id\": \"a\"}]".to_string()), 900);
    assert_eq!(step.error, Some(SnapshotError::MalformedEntry(0)));
    assert_eq!(scheduler, before);
}

#[test]
fn a_failed_query_keeps_the_session() {
    let mut scheduler = with_session();
    scheduler.on_event(&Event::Status(ONE_TAB.to_string()), 100);
    let before = scheduler.clone();
    let step = scheduler.on_event(&Event::FetchFailed, 900);
    assert!(step.actions.is_empty());
    assert_eq!(step.wait_secs, 10);
    assert_eq!(step.error, None);
    assert_eq!(scheduler, before);
}

#[test]
fn a_lost_session_drops_the_records() {
    let mut scheduler = with_session();
    scheduler.on_event(&Event::Status(ONE_TAB.to_string()), 100);
    assert_eq!(scheduler.state.len(), 1);
    let step = scheduler.on_event(&Event::SessionLost, 120);
    assert_eq!(scheduler.phase, Phase::NoSession);
    assert!(scheduler.state.is_empty());
    assert!(step.actions.is_empty());
    assert_eq!(step.wait_secs, 0);
    assert!(matches!(scheduler.next_command(), Command::AcquireSession { .. }));
}

#[test]
fn a_report_that_does_not_fit_the_phase_changes_nothing() {
    let mut scheduler = Scheduler::new(Config::default());
    let step = scheduler.on_event(&Event::Status(ONE_TAB.to_string()), 100);
    assert_eq!(scheduler.phase, Phase::NoSession);
    assert!(scheduler.state.is_empty());
    assert!(step.actions.is_empty());
    assert_eq!(step.wait_secs, 5);
    assert_eq!(scheduler.on_event(&Event::SessionLost, 100).wait_secs, 5);
    assert_eq!(scheduler.phase, Phase::NoSession);

    let mut polling = with_session();
    polling.on_event(&Event::Status(ONE_TAB.to_string()), 100);
    let before = polling.clone();
    assert_eq!(polling.on_event(&Event::SessionAcquired, 200).wait_secs, 10);
    assert_eq!(polling.on_event(&Event::SessionFailed, 200).wait_secs, 10);
    assert_eq!(polling, before);
}

#[test]
fn configured_intervals_and_thresholds_are_used() {
    let mut config = Config::default();
    config.poll_interval = 3;
    config.staleness_threshold = 20;
    config.min_blank_tabs = 2;
    let mut scheduler = Scheduler::new(config);
    scheduler.on_event(&Event::SessionAcquired, 0);
    let status = Event::Status(ONE_TAB_AND_A_BLANK.to_string());
    let step = scheduler.on_event(&status, 100);
    assert_eq!(step.wait_secs, 3);
    assert_eq!(step.actions, vec![Action::Open("chrome://newtab/".to_string())]);
    let step = scheduler.on_event(&status, 121);
    assert_eq!(
        step.actions,
        vec![
            Action::Close("a".to_string()),
            Action::Open("chrome://newtab/".to_string()),
        ]
    );
}

#[test]
fn focus_actions_follow_the_reconciliation_when_switched_on() {
    let mut config = Config::default();
    config.focus_tabs = true;
    config.focus_exclusions = vec!["https://duckduckgo.com/".to_string()];
    let tabs = vec![
        TabSnapshot::page("first", "https://one.example"),
        TabSnapshot::page("search", "https://duckduckgo.com/"),
        TabSnapshot::page("work", "https://two.example"),
    ];
    let mut state = ReconcilerState::new();
    let actions = run_cycle(&config, &mut state, &tabs, 10);
    assert_eq!(
        actions,
        vec![
            Action::Open("chrome://newtab/".to_string()),
            Action::Focus("work".to_string()),
        ]
    );
    assert_eq!(state.len(), 3);

    config.focus_tabs = false;
    let mut state = ReconcilerState::new();
    assert_eq!(
        run_cycle(&config, &mut state, &tabs, 10),
        vec![Action::Open("chrome://newtab/".to_string())]
    );
}

#[test]
fn the_default_settings() {
    let config = Config::default();
    assert_eq!(config.profile_path, None);
    assert_eq!(config.poll_interval, 10);
    assert_eq!(config.staleness_threshold, 300);
    assert_eq!(config.min_blank_tabs, 1);
    assert!(!config.focus_tabs);
    assert!(config.focus_exclusions.is_empty());
    assert_eq!(
        config.window_resolutions,
        vec![
            (1920, 1487),
            (1920, 1527),
            (1600, 1111),
            (1600, 1137),
            (1680, 1137),
            (1600, 1287),
            (1600, 1367),
            (1920, 1167),
            (1920, 1287),
            (1920, 1167),
        ]
    );
}
