//! The reconciliation of tab records with a snapshot, as mathematics.
//!
//! One poll cycle takes the records of the previous cycle and the tabs the
//! browser reports now, and yields the records to keep and the actions to
//! take. Everything here is stated over views: sequences of characters for
//! strings, sequences of records in the order in which tabs were first seen.

use vstd::prelude::*;
use crate::action::ActionView;
use crate::metadata::{contains_id, MetaView};
use crate::tab::{is_blank, is_external, TabView, NEW_TAB_URL};

verus! {

/// Whether the snapshot shows an external tab with this id.
pub open spec fn has_external(tabs: Seq<TabView>, id: Seq<char>) -> bool {
    exists|i: int| 0 <= i < tabs.len() && is_external(#[trigger] tabs[i]) && tabs[i].id == id
}

/// Every external tab with this id in the snapshot shows `url`.
pub open spec fn shows_only(tabs: Seq<TabView>, id: Seq<char>, url: Seq<char>) -> bool {
    forall|i: int|
        0 <= i < tabs.len() && is_external(#[trigger] tabs[i]) && tabs[i].id == id ==> tabs[i].url
            == url
}

/// No id stands in the snapshot with two different URLs on external tabs.
pub open spec fn consistent(tabs: Seq<TabView>) -> bool {
    forall|i: int, j: int|
        0 <= i < tabs.len() && 0 <= j < tabs.len() && is_external(#[trigger] tabs[i])
            && is_external(#[trigger] tabs[j]) && tabs[i].id == tabs[j].id ==> tabs[i].url
            == tabs[j].url
}

/// The test for a record: its tab is still among the external tabs of the snapshot.
pub open spec fn still_open(tabs: Seq<TabView>) -> spec_fn(MetaView) -> bool {
    |e: MetaView| has_external(tabs, e.id)
}

/// The records whose tab is still among the external tabs of the snapshot.
pub open spec fn sweep(entries: Seq<MetaView>, tabs: Seq<TabView>) -> Seq<MetaView> {
    entries.filter(still_open(tabs))
}

/// The record `e` after the tab `t` was seen at `now`: if `e` is about `t` and
/// `t` shows another URL than recorded, the URL and the time of its change
/// are renewed; otherwise `e` is unchanged.
pub open spec fn refresh(e: MetaView, t: TabView, now: u64) -> MetaView {
    if e.id == t.id && e.current_url != t.url {
        MetaView { current_url: t.url, last_url_change_at: now, ..e }
    } else {
        e
    }
}

/// The record of a tab that is seen for the first time at `now`.
pub open spec fn first_sight(t: TabView, now: u64) -> MetaView {
    MetaView { id: t.id, opened_at: now, last_url_change_at: now, current_url: t.url }
}

/// The records after one tab of the snapshot was taken into account.
///
/// A tab that is not external changes nothing. An external tab that is
/// tracked has its record refreshed; one that is not tracked gets a new
/// record at the end.
pub open spec fn observe(entries: Seq<MetaView>, t: TabView, now: u64) -> Seq<MetaView> {
    if !is_external(t) {
        entries
    } else if contains_id(entries, t.id) {
        entries.map_values(|e: MetaView| refresh(e, t, now))
    } else {
        entries.push(first_sight(t, now))
    }
}

/// The records after every tab of the snapshot was taken into account, first to last.
pub open spec fn observe_all(entries: Seq<MetaView>, tabs: Seq<TabView>, now: u64) -> Seq<
    MetaView,
>
    decreases tabs.len(),
{
    if tabs.len() == 0 {
        entries
    } else {
        observe(observe_all(entries, tabs.drop_last(), now), tabs.last(), now)
    }
}

/// Whether the tab of `e` has shown the same URL for longer than `threshold`.
pub open spec fn is_stale(e: MetaView, now: u64, threshold: u64) -> bool {
    now - e.last_url_change_at > threshold
}

/// The test for a record: its tab is stale.
pub open spec fn stale_at(now: u64, threshold: u64) -> spec_fn(MetaView) -> bool {
    |e: MetaView| is_stale(e, now, threshold)
}

/// The test for a record: its tab is not stale.
pub open spec fn fresh_at(now: u64, threshold: u64) -> spec_fn(MetaView) -> bool {
    |e: MetaView| !is_stale(e, now, threshold)
}

/// The test for a tab: it is blank.
pub open spec fn blank() -> spec_fn(TabView) -> bool {
    |t: TabView| is_blank(t)
}

/// The records as they stand after the sweep and the update, before stale tabs are dropped.
pub open spec fn current(entries: Seq<MetaView>, tabs: Seq<TabView>, now: u64) -> Seq<MetaView> {
    observe_all(sweep(entries, tabs), tabs, now)
}

/// The records that one poll cycle leaves behind.
pub open spec fn reconciled(
    entries: Seq<MetaView>,
    tabs: Seq<TabView>,
    now: u64,
    threshold: u64,
) -> Seq<MetaView> {
    current(entries, tabs, now).filter(fresh_at(now, threshold))
}

/// The stale tabs of one poll cycle, in the order of their records.
pub open spec fn stale_entries(
    entries: Seq<MetaView>,
    tabs: Seq<TabView>,
    now: u64,
    threshold: u64,
) -> Seq<MetaView> {
    current(entries, tabs, now).filter(stale_at(now, threshold))
}

/// One `Close` for each stale tab.
pub open spec fn closes(
    entries: Seq<MetaView>,
    tabs: Seq<TabView>,
    now: u64,
    threshold: u64,
) -> Seq<ActionView> {
    stale_entries(entries, tabs, now, threshold).map_values(|e: MetaView| ActionView::Close(e.id))
}

/// How many blank tabs the snapshot shows.
pub open spec fn blank_count(tabs: Seq<TabView>) -> nat {
    tabs.filter(blank()).len()
}

/// How many blank tabs are missing to reach `min_blank`.
pub open spec fn missing_blank(tabs: Seq<TabView>, min_blank: nat) -> nat {
    if blank_count(tabs) >= min_blank {
        0
    } else {
        (min_blank - blank_count(tabs)) as nat
    }
}

/// One `Open` of the new-tab page for each missing blank tab.
pub open spec fn opens(tabs: Seq<TabView>, min_blank: nat) -> Seq<ActionView> {
    Seq::new(missing_blank(tabs, min_blank), |i: int| ActionView::Open(NEW_TAB_URL@))
}

/// The actions of one poll cycle: the closes, then the opens.
pub open spec fn planned_actions(
    entries: Seq<MetaView>,
    tabs: Seq<TabView>,
    now: u64,
    threshold: u64,
    min_blank: nat,
) -> Seq<ActionView> {
    closes(entries, tabs, now, threshold) + opens(tabs, min_blank)
}

} // verus!
