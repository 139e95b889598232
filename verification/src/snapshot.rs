//! Reading the browser's tab list.
//!
//! The browser answers a status query with a JSON array, one object per debugging
//! target, each with the string members `id`, `type` and `url`. Anything else is a
//! malformed answer: the cycle that got it is skipped.

use vstd::prelude::*;
use vstd::string::*;
use crate::json::{json_elements, json_member, json_parse, json_string, member, parse_json};
use crate::tab::{tab_views, TabKind, TabSnapshot, TabView};

verus! {

/// The member that holds a target's id.
pub const ID_KEY: &'static str = "id";

/// The member that holds a target's kind.
pub const KIND_KEY: &'static str = "type";

/// The member that holds a target's URL.
pub const URL_KEY: &'static str = "url";

/// The kind that pages have.
pub const PAGE_KIND: &'static str = "page";

/// Why a tab list could not be read.
#[derive(Clone, Copy, Debug, PartialEq, Eq)]
pub enum SnapshotError {
    /// The text is not JSON.
    InvalidJson,
    /// The document is not an array.
    NotAList,
    /// The entry at this index lacks `id`, `type` or `url`, or holds something other
    /// than a string there. It is the first such entry.
    MalformedEntry(usize),
}

/// The kind of a target whose `type` member holds `name`.
pub open spec fn kind_of(name: Seq<char>) -> TabKind {
    if name == PAGE_KIND@ {
        TabKind::Page
    } else {
        TabKind::Other
    }
}

/// The tab made of the three members of an entry, if all three are there.
pub open spec fn tab_of_fields(
    id: Option<Seq<char>>,
    kind: Option<Seq<char>>,
    url: Option<Seq<char>>,
) -> Option<TabView> {
    if id is Some && kind is Some && url is Some {
        Some(TabView { id: id->0, kind: kind_of(kind->0), url: url->0 })
    } else {
        None
    }
}

/// The string that an entry holds under a key, if it holds one.
pub open spec fn string_member(entry: serde_json::Value, key: Seq<char>) -> Option<Seq<char>> {
    match json_member(entry, key) {
        Some(found) => json_string(found),
        None => None,
    }
}

/// The tab that an entry of the list describes, if it is well formed.
pub open spec fn decoded_tab(entry: serde_json::Value) -> Option<TabView> {
    tab_of_fields(
        string_member(entry, ID_KEY@),
        string_member(entry, KIND_KEY@),
        string_member(entry, URL_KEY@),
    )
}

/// Whether `i` is the index of the first entry that is not well formed.
pub open spec fn first_malformed(items: Seq<serde_json::Value>, i: int) -> bool {
    &&& 0 <= i < items.len()
    &&& decoded_tab(items[i]) is None
    &&& forall|j: int| 0 <= j < i ==> decoded_tab(#[trigger] items[j]) is Some
}

/// The tabs that a list of entries describes, or the first entry that is not well formed.
pub open spec fn decoded_entries(items: Seq<serde_json::Value>) -> Result<
    Seq<TabView>,
    SnapshotError,
> {
    if exists|i: int| first_malformed(items, i) {
        Err(SnapshotError::MalformedEntry((choose|i: int| first_malformed(items, i)) as usize))
    } else {
        Ok(items.map_values(|entry: serde_json::Value| decoded_tab(entry)->0))
    }
}

/// The tabs that a document describes, or why it describes none.
pub open spec fn decoded(value: serde_json::Value) -> Result<Seq<TabView>, SnapshotError> {
    match json_elements(value) {
        Some(items) => decoded_entries(items),
        None => Err(SnapshotError::NotAList),
    }
}

/// The tabs that a text describes, or why it describes none.
pub open spec fn parsed(text: Seq<char>) -> Result<Seq<TabView>, SnapshotError> {
    match json_parse(text) {
        Some(value) => decoded(value),
        None => Err(SnapshotError::InvalidJson),
    }
}

/// The mathematical content of the result of reading a tab list.
pub open spec fn outcome_view(r: Result<Vec<TabSnapshot>, SnapshotError>) -> Result<
    Seq<TabView>,
    SnapshotError,
> {
    match r {
        Ok(tabs) => Ok(tab_views(tabs@)),
        Err(e) => Err(e),
    }
}

impl TabKind {
    /// The kind of a target whose `type` member holds `name`: a page if it says so.
    pub fn from_name(name: &str) -> (kind: TabKind)
        ensures
            kind == kind_of(name@),
    {
        if String::from_str(name) == String::from_str(PAGE_KIND) {
            TabKind::Page
        } else {
            TabKind::Other
        }
    }
}

impl TabSnapshot {
    /// The tab made of the three members of an entry; `None` if one is missing.
    pub fn from_fields(id: Option<&str>, kind: Option<&str>, url: Option<&str>) -> (r: Option<
        TabSnapshot,
    >)
        ensures
            match r {
                Some(tab) => Some(tab@),
                None => None,
            } == tab_of_fields(
                match id {
                    Some(s) => Some(s@),
                    None => None,
                },
                match kind {
                    Some(s) => Some(s@),
                    None => None,
                },
                match url {
                    Some(s) => Some(s@),
                    None => None,
                },
            ),
    {
        match (id, kind, url) {
            (Some(id), Some(kind), Some(url)) => Some(
                TabSnapshot {
                    id: String::from_str(id),
                    kind: TabKind::from_name(kind),
                    url: String::from_str(url),
                },
            ),
            _ => None,
        }
    }
}

/// The string that an entry holds under a key, if it holds one.
pub fn read_string<'a>(entry: &'a serde_json::Value, key: &str) -> (r: Option<&'a str>)
    ensures
        match r {
            Some(s) => Some(s@),
            None => None,
        } == string_member(*entry, key@),
{
    match member(entry, key) {
        Some(found) => found.as_str(),
        None => None,
    }
}

/// The tab that an entry of the list describes; `None` if it is not well formed.
pub fn decode_tab(entry: &serde_json::Value) -> (r: Option<TabSnapshot>)
    ensures
        match r {
            Some(tab) => Some(tab@),
            None => None,
        } == decoded_tab(*entry),
{
    TabSnapshot::from_fields(
        read_string(entry, ID_KEY),
        read_string(entry, KIND_KEY),
        read_string(entry, URL_KEY),
    )
}

/// Reads the tab list out of a JSON document.
///
/// Fails with `NotAList` where the document is not an array, and with
/// `MalformedEntry` and the index of the first offending entry where an entry lacks a
/// string `id`, `type` or `url`.
pub fn decode_tabs(value: &serde_json::Value) -> (r: Result<Vec<TabSnapshot>, SnapshotError>)
    ensures
        outcome_view(r) == decoded(*value),
{
    let items = match value.as_array() {
        Some(items) => items,
        None => {
            return Err(SnapshotError::NotAList);
        },
    };
    let ghost all = items@;
    let mut tabs: Vec<TabSnapshot> = Vec::new();
    let mut i: usize = 0;
    while i < items.len()
        invariant
            i <= items.len(),
            all == items@,
            json_elements(*value) == Some(all),
            tabs@.len() == i,
            forall|j: int| 0 <= j < i ==> decoded_tab(#[trigger] all[j]) == Some(tabs@[j]@),
        decreases items.len() - i,
    {
        match decode_tab(&items[i]) {
            Some(tab) => {
                tabs.push(tab);
            },
            None => {
                proof {
                    assert(first_malformed(all, i as int));
                    let c = choose|c: int| first_malformed(all, c);
                    assert(c == i) by {
                        if c < i {
                            assert(decoded_tab(all[c]) is Some);
                        } else if i < c {
                            assert(decoded_tab(all[i as int]) is Some);
                        }
                    }
                }
                return Err(SnapshotError::MalformedEntry(i));
            },
        }
        i += 1;
    }
    proof {
        assert forall|c: int| !first_malformed(all, c) by {
            if 0 <= c < all.len() {
                assert(decoded_tab(all[c]) is Some);
            }
        }
        assert(tab_views(tabs@) =~= all.map_values(
            |entry: serde_json::Value| decoded_tab(entry)->0,
        ));
    }
    Ok(tabs)
}

/// Reads the tab list out of the text of the browser's answer.
///
/// Fails with `InvalidJson` where the text is not JSON, and as `decode_tabs` does on
/// the document otherwise.
pub fn parse_snapshot(text: &str) -> (r: Result<Vec<TabSnapshot>, SnapshotError>)
    ensures
        outcome_view(r) == parsed(text@),
{
    match parse_json(text) {
        Ok(value) => decode_tabs(&value),
        Err(_) => Err(SnapshotError::InvalidJson),
    }
}

} // verus!
