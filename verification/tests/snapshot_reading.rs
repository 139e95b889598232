use browser_for_remote::snapshot::{
    decode_tab, decode_tabs, parse_snapshot, read_string, SnapshotError,
};
use browser_for_remote::tab::{TabKind, TabSnapshot};

fn json(text: &str) -> serde_json::Value {
    serde_json::from_str(text).expect("the fixture is JSON")
}

#[test]
fn a_tab_list_is_read_in_order() {
    let text = r#"[
        {"id": "A1", "type": "page", "url": "https://example.com", "title": "Example"},
        {"id": "B2", "type": "service_worker", "url": "https://example.com/sw.js"},
        {"id": "C3", "type": "page", "url": "chrome://newtab/"}
    ]"#;
    let tabs = parse_snapshot(text).expect("the list is well formed");
    assert_eq!(
        tabs,
        vec![
            TabSnapshot::page("A1", "https://example.com"),
            TabSnapshot {
                id: "B2".to_string(),
                kind: TabKind::Other,
                url: "https://example.com/sw.js".to_string(),
            },
            TabSnapshot::page("C3", "chrome://newtab/"),
        ]
    );
}

#[test]
fn an_empty_list_is_a_list() {
    assert_eq!(parse_snapshot("[]"), Ok(Vec::new()));
}

#[test]
fn text_that_is_not_json_is_refused() {
    assert_eq!(parse_snapshot(""), Err(SnapshotError::InvalidJson));
    assert_eq!(parse_snapshot("[{\"id\": "), Err(SnapshotError::InvalidJson));
    assert_eq!(parse_snapshot("<html>"), Err(SnapshotError::InvalidJson));
}

#[test]
fn a_document_that_is_not_a_list_is_refused() {
    assert_eq!(parse_snapshot("{\"id\": \"a\"}"), Err(SnapshotError::NotAList));
    assert_eq!(parse_snapshot("null"), Err(SnapshotError::NotAList));
    assert_eq!(parse_snapshot("\"page\""), Err(SnapshotError::NotAList));
    assert_eq!(decode_tabs(&json("17")), Err(SnapshotError::NotAList));
}

#[test]
fn the_first_malformed_entry_is_named() {
    let text = r#"[
        {"id": "a", "type": "page", "url": "https://example.com"},
        {"id": "b", "type": "page"},
        {"type": "page", "url": "https://example.com"}
    ]"#;
    assert_eq!(parse_snapshot(text), Err(SnapshotError::MalformedEntry(1)));
    assert_eq!(parse_snapshot("[1]"), Err(SnapshotError::MalformedEntry(0)));
    assert_eq!(
        parse_snapshot(r#"[{"id": 7, "type": "page", "url": "u"}]"#),
        Err(SnapshotError::MalformedEntry(0))
    );
    assert_eq!(
        parse_snapshot(r#"[{"id": "a", "type": null, "url": "u"}]"#),
        Err(SnapshotError::MalformedEntry(0))
    );
    assert_eq!(
        parse_snapshot(r#"[{"id": "a", "type": "page", "url": ["u"]}]"#),
        Err(SnapshotError::MalformedEntry(0))
    );
}

#[test]
fn only_the_type_page_makes_a_page() {
    assert_eq!(TabKind::from_name("page"), TabKind::Page);
    assert_eq!(TabKind::from_name("Page"), TabKind::Other);
    assert_eq!(TabKind::from_name("background_page"), TabKind::Other);
    assert_eq!(TabKind::from_name(""), TabKind::Other);
}

#[test]
fn a_tab_needs_all_three_fields() {
    assert_eq!(
        TabSnapshot::from_fields(Some("a"), Some("page"), Some("https://example.com")),
        Some(TabSnapshot::page("a", "https://example.com"))
    );
    assert_eq!(
        TabSnapshot::from_fields(Some("a"), Some("iframe"), Some("u")),
        Some(TabSnapshot { id: "a".to_string(), kind: TabKind::Other, url: "u".to_string() })
    );
    assert_eq!(TabSnapshot::from_fields(None, Some("page"), Some("u")), None);
    assert_eq!(TabSnapshot::from_fields(Some("a"), None, Some("u")), None);
    assert_eq!(TabSnapshot::from_fields(Some("a"), Some("page"), None), None);
}

#[test]
fn a_string_member_is_read_and_nothing_else() {
    let entry = json(r#"{"id": "a", "n": 3, "url": "https://example.com", "o": {"id": "inner"}}"#);
    assert_eq!(read_string(&entry, "id"), Some("a"));
    assert_eq!(read_string(&entry, "url"), Some("https://example.com"));
    assert_eq!(read_string(&entry, "n"), None);
    assert_eq!(read_string(&entry, "o"), None);
    assert_eq!(read_string(&entry, "missing"), None);
    assert_eq!(read_string(&json(r#"["id"]"#), "id"), None);
    assert_eq!(read_string(&json(r#""id""#), "id"), None);
}

#[test]
fn an_entry_is_decoded_from_its_members() {
    let entry = json(r#"{"url": "about:blank", "type": "page", "id": "Z"}"#);
    assert_eq!(decode_tab(&entry), Some(TabSnapshot::page("Z", "about:blank")));
    assert_eq!(decode_tab(&json(r#"{"url": "about:blank", "type": "page"}"#)), None);
    assert_eq!(decode_tab(&json("[]")), None);
}

#[test]
fn escapes_in_strings_are_resolved() {
    let text = r#"[{"id": "aA", "type": "page", "url": "https:\/\/x.example\/\"q\""}]"#;
    let tabs = parse_snapshot(text).expect("the list is well formed");
    assert_eq!(tabs, vec![TabSnapshot::page("aA", "https://x.example/\"q\"")]);
}
