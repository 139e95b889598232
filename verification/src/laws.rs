//! What holds of every poll cycle.
//!
//! Each statement is about the records and actions that `ReconcilerState::reconcile`
//! is specified to produce: `reconciled` and `planned_actions`.

use vstd::prelude::*;
use crate::action::ActionView;
use crate::lemmas::{
    lemma_entry_at, lemma_filter_all, lemma_filter_entry, lemma_filter_ids,
    lemma_filter_keeps_distinct, lemma_filter_none, lemma_observe_all_ids,
    lemma_observe_all_keeps_distinct, lemma_observe_all_places, lemma_observe_all_urls,
};
use crate::metadata::{contains_id, distinct_ids, entry_of, MetaView};
use crate::model::{
    blank_count, closes, consistent, current, fresh_at, has_external, is_stale, missing_blank,
    opens, planned_actions, reconciled, shows_only, stale_at, stale_entries, still_open, sweep,
};
use crate::tab::{TabView, NEW_TAB_URL};

verus! {

/// Before stale tabs are dropped, the tracked tabs are exactly the external tabs of the
/// snapshot, and no tab has two records.
pub proof fn lemma_current_tracks_external_tabs(
    entries: Seq<MetaView>,
    tabs: Seq<TabView>,
    now: u64,
)
    requires
        distinct_ids(entries),
    ensures
        distinct_ids(current(entries, tabs, now)),
        forall|id: Seq<char>| #[trigger]
            contains_id(current(entries, tabs, now), id) <==> has_external(tabs, id),
{
    lemma_filter_keeps_distinct(entries, still_open(tabs));
    lemma_observe_all_keeps_distinct(sweep(entries, tabs), tabs, now);
    assert forall|id: Seq<char>| #[trigger]
        contains_id(current(entries, tabs, now), id) <==> has_external(tabs, id) by {
        lemma_observe_all_ids(sweep(entries, tabs), tabs, now, id);
        lemma_filter_ids(entries, still_open(tabs), id);
    }
}

/// A poll cycle leaves at most one record for each external tab of the snapshot, and
/// none for anything else. Each external tab of the snapshot either has a record
/// afterwards or is closed.
pub proof fn lemma_one_record_per_external_tab(
    entries: Seq<MetaView>,
    tabs: Seq<TabView>,
    now: u64,
    threshold: u64,
)
    requires
        distinct_ids(entries),
    ensures
        distinct_ids(reconciled(entries, tabs, now, threshold)),
        forall|id: Seq<char>| #[trigger]
            contains_id(reconciled(entries, tabs, now, threshold), id) ==> has_external(tabs, id),
        forall|id: Seq<char>| #[trigger]
            has_external(tabs, id) ==> contains_id(reconciled(entries, tabs, now, threshold), id)
                || closes(entries, tabs, now, threshold).contains(ActionView::Close(id)),
{
    let cur = current(entries, tabs, now);
    lemma_current_tracks_external_tabs(entries, tabs, now);
    lemma_filter_keeps_distinct(cur, fresh_at(now, threshold));
    assert forall|id: Seq<char>| #[trigger]
        contains_id(reconciled(entries, tabs, now, threshold), id) implies has_external(
        tabs,
        id,
    ) by {
        assert(contains_id(cur, id));
    }
    assert forall|id: Seq<char>| #[trigger] has_external(tabs, id) implies contains_id(
        reconciled(entries, tabs, now, threshold),
        id,
    ) || closes(entries, tabs, now, threshold).contains(ActionView::Close(id)) by {
        assert(contains_id(cur, id));
        let k = choose|k: int| 0 <= k < cur.len() && (#[trigger] cur[k]).id == id;
        if is_stale(cur[k], now, threshold) {
            lemma_close_for_stale(entries, tabs, now, threshold, k);
        } else {
            lemma_filter_ids(cur, fresh_at(now, threshold), id);
        }
    }
}

/// A record that is stale after the update has its tab closed.
pub proof fn lemma_close_for_stale(
    entries: Seq<MetaView>,
    tabs: Seq<TabView>,
    now: u64,
    threshold: u64,
    k: int,
)
    requires
        0 <= k < current(entries, tabs, now).len(),
        is_stale(current(entries, tabs, now)[k], now, threshold),
    ensures
        closes(entries, tabs, now, threshold).contains(
            ActionView::Close(current(entries, tabs, now)[k].id),
        ),
{
    broadcast use Seq::lemma_filter_contains;

    let cur = current(entries, tabs, now);
    let stale = stale_entries(entries, tabs, now, threshold);
    assert(stale.contains(cur[k]));
    let i = choose|i: int| 0 <= i < stale.len() && stale[i] == cur[k];
    assert(closes(entries, tabs, now, threshold)[i] == ActionView::Close(cur[k].id));
}

/// Every `Close` of a poll cycle is for a tab that is stale after the update.
pub proof fn lemma_close_only_for_stale(
    entries: Seq<MetaView>,
    tabs: Seq<TabView>,
    now: u64,
    threshold: u64,
    id: Seq<char>,
)
    requires
        closes(entries, tabs, now, threshold).contains(ActionView::Close(id)),
    ensures
        exists|k: int|
            0 <= k < current(entries, tabs, now).len() && (#[trigger] current(
                entries,
                tabs,
                now,
            )[k]).id == id && is_stale(current(entries, tabs, now)[k], now, threshold),
{
    let cur = current(entries, tabs, now);
    let stale = stale_entries(entries, tabs, now, threshold);
    let all = closes(entries, tabs, now, threshold);
    let i = choose|i: int| 0 <= i < all.len() && all[i] == ActionView::Close(id);
    assert(stale[i].id == id);
    assert(contains_id(stale, id));
    lemma_filter_ids(cur, stale_at(now, threshold), id);
}

/// A tab that the snapshot no longer shows as an external tab has no record after the
/// cycle, and the cycle issues no `Close` for it.
pub proof fn lemma_vanished_tab_is_forgotten(
    entries: Seq<MetaView>,
    tabs: Seq<TabView>,
    now: u64,
    threshold: u64,
    min_blank: nat,
    id: Seq<char>,
)
    requires
        distinct_ids(entries),
        contains_id(entries, id),
        !has_external(tabs, id),
    ensures
        !contains_id(reconciled(entries, tabs, now, threshold), id),
        !planned_actions(entries, tabs, now, threshold, min_blank).contains(ActionView::Close(id)),
{
    lemma_one_record_per_external_tab(entries, tabs, now, threshold);
    lemma_current_tracks_external_tabs(entries, tabs, now);
    let all = planned_actions(entries, tabs, now, threshold, min_blank);
    let shut = closes(entries, tabs, now, threshold);
    if all.contains(ActionView::Close(id)) {
        let i = choose|i: int| 0 <= i < all.len() && all[i] == ActionView::Close(id);
        if i < shut.len() {
            assert(shut[i] == ActionView::Close(id));
            assert(shut.contains(ActionView::Close(id)));
            lemma_close_only_for_stale(entries, tabs, now, threshold, id);
            assert(contains_id(current(entries, tabs, now), id));
        } else {
            assert(all[i] == opens(tabs, min_blank)[i - shut.len()]);
        }
    }
}

/// A tracked tab that the snapshot still shows at the recorded URL, and that has shown
/// it for longer than the threshold, is closed by exactly one `Close`, and has no
/// record after the cycle.
pub proof fn lemma_stalled_tab_is_closed_once(
    entries: Seq<MetaView>,
    tabs: Seq<TabView>,
    now: u64,
    threshold: u64,
    min_blank: nat,
    id: Seq<char>,
)
    requires
        distinct_ids(entries),
        contains_id(entries, id),
        has_external(tabs, id),
        shows_only(tabs, id, entry_of(entries, id).current_url),
        is_stale(entry_of(entries, id), now, threshold),
    ensures
        !contains_id(reconciled(entries, tabs, now, threshold), id),
        exists|k: int|
            0 <= k < planned_actions(entries, tabs, now, threshold, min_blank).len() && (
            #[trigger] planned_actions(entries, tabs, now, threshold, min_blank)[k])
                == ActionView::Close(id) && forall|j: int|
                0 <= j < planned_actions(entries, tabs, now, threshold, min_blank).len() && j != k
                    ==> (#[trigger] planned_actions(entries, tabs, now, threshold, min_blank)[j])
                    != ActionView::Close(id),
{
    broadcast use Seq::lemma_filter_contains;

    let e0 = entry_of(entries, id);
    let sw = sweep(entries, tabs);
    let cur = current(entries, tabs, now);
    let stale = stale_entries(entries, tabs, now, threshold);
    let all = planned_actions(entries, tabs, now, threshold, min_blank);
    let shut = closes(entries, tabs, now, threshold);
    lemma_filter_keeps_distinct(entries, still_open(tabs));
    lemma_filter_entry(entries, still_open(tabs), id);
    assert(contains_id(sw, id) && entry_of(sw, id) == e0);
    let b = choose|b: int| 0 <= b < sw.len() && (#[trigger] sw[b]).id == id;
    lemma_entry_at(sw, b);
    lemma_observe_all_places(sw, tabs, now);
    assert(cur[b] == sw[b]);
    lemma_current_tracks_external_tabs(entries, tabs, now);
    lemma_entry_at(cur, b);
    lemma_filter_entry(cur, fresh_at(now, threshold), id);
    lemma_filter_entry(cur, stale_at(now, threshold), id);
    lemma_filter_keeps_distinct(cur, stale_at(now, threshold));
    let c = choose|c: int| 0 <= c < stale.len() && (#[trigger] stale[c]).id == id;
    assert(shut[c] == ActionView::Close(id));
    assert(all[c] == shut[c]);
    assert forall|j: int| 0 <= j < all.len() && j != c implies (#[trigger] all[j])
        != ActionView::Close(id) by {
        if j < shut.len() {
            assert(all[j] == shut[j]);
            assert(shut[j] == ActionView::Close(stale[j].id));
            if j < c {
                assert(stale[j].id != stale[c].id);
            } else {
                assert(stale[c].id != stale[j].id);
            }
        } else {
            assert(all[j] == opens(tabs, min_blank)[j - shut.len()]);
        }
    }
}

/// Where the snapshot shows no blank tab and one is wanted, the cycle issues exactly
/// one `Open`, for the new-tab page, after its `Close` actions.
pub proof fn lemma_one_open_when_no_blank_tab(
    entries: Seq<MetaView>,
    tabs: Seq<TabView>,
    now: u64,
    threshold: u64,
)
    requires
        blank_count(tabs) == 0,
    ensures
        planned_actions(entries, tabs, now, threshold, 1) == closes(
            entries,
            tabs,
            now,
            threshold,
        ).push(ActionView::Open(NEW_TAB_URL@)),
        forall|i: int|
            0 <= i < closes(entries, tabs, now, threshold).len() ==> (#[trigger] closes(
                entries,
                tabs,
                now,
                threshold,
            )[i]) is Close,
{
    let shut = closes(entries, tabs, now, threshold);
    assert(missing_blank(tabs, 1) == 1);
    assert(opens(tabs, 1) =~= seq![ActionView::Open(NEW_TAB_URL@)]);
    assert(shut + seq![ActionView::Open(NEW_TAB_URL@)] =~= shut.push(
        ActionView::Open(NEW_TAB_URL@),
    ));
}

/// The cycle issues as many `Open` actions as blank tabs are missing, all for the
/// new-tab page, and none where enough blank tabs exist.
pub proof fn lemma_opens_fill_the_gap(tabs: Seq<TabView>, min_blank: nat)
    ensures
        opens(tabs, min_blank).len() == missing_blank(tabs, min_blank),
        blank_count(tabs) >= min_blank ==> opens(tabs, min_blank).len() == 0,
        blank_count(tabs) < min_blank ==> opens(tabs, min_blank).len() + blank_count(tabs)
            == min_blank,
        forall|i: int|
            0 <= i < opens(tabs, min_blank).len() ==> (#[trigger] opens(tabs, min_blank)[i])
                == ActionView::Open(NEW_TAB_URL@),
{
}

/// The time of a tab's last URL change never goes back from one cycle to the next, as
/// long as the clock does not: a record that survives a cycle at a time not before its
/// last change keeps that time or gets a later one. The time it was opened stays.
pub proof fn lemma_last_change_never_decreases(
    entries: Seq<MetaView>,
    tabs: Seq<TabView>,
    now: u64,
    threshold: u64,
    id: Seq<char>,
)
    requires
        distinct_ids(entries),
        contains_id(entries, id),
        contains_id(reconciled(entries, tabs, now, threshold), id),
        entry_of(entries, id).last_url_change_at <= now,
    ensures
        entry_of(reconciled(entries, tabs, now, threshold), id).last_url_change_at >= entry_of(
            entries,
            id,
        ).last_url_change_at,
        entry_of(reconciled(entries, tabs, now, threshold), id).opened_at == entry_of(
            entries,
            id,
        ).opened_at,
{
    let sw = sweep(entries, tabs);
    let cur = current(entries, tabs, now);
    lemma_one_record_per_external_tab(entries, tabs, now, threshold);
    lemma_current_tracks_external_tabs(entries, tabs, now);
    lemma_filter_keeps_distinct(entries, still_open(tabs));
    lemma_filter_entry(entries, still_open(tabs), id);
    let b = choose|b: int| 0 <= b < sw.len() && (#[trigger] sw[b]).id == id;
    lemma_entry_at(sw, b);
    lemma_observe_all_places(sw, tabs, now);
    assert(cur[b].id == id);
    lemma_entry_at(cur, b);
    lemma_filter_entry(cur, fresh_at(now, threshold), id);
}

/// A second cycle on the same snapshot disturbs nothing, where the snapshot shows no
/// id at two URLs. Whatever the time of the second cycle, the records that the first
/// one left stand untouched in their places, so no time of a last change is renewed.
/// At the same time as the first, the second cycle closes nothing; and if the first
/// closed nothing either, the second leaves the records exactly as they were.
pub proof fn lemma_second_cycle_disturbs_nothing(
    entries: Seq<MetaView>,
    tabs: Seq<TabView>,
    now: u64,
    threshold: u64,
    later: u64,
)
    requires
        distinct_ids(entries),
        consistent(tabs),
    ensures
        current(reconciled(entries, tabs, now, threshold), tabs, later).len() >= reconciled(
            entries,
            tabs,
            now,
            threshold,
        ).len(),
        forall|k: int|
            0 <= k < reconciled(entries, tabs, now, threshold).len() ==> (#[trigger] current(
                reconciled(entries, tabs, now, threshold),
                tabs,
                later,
            )[k]) == reconciled(entries, tabs, now, threshold)[k],
        closes(reconciled(entries, tabs, now, threshold), tabs, now, threshold)
            == Seq::<ActionView>::empty(),
        closes(entries, tabs, now, threshold).len() == 0 ==> reconciled(
            reconciled(entries, tabs, now, threshold),
            tabs,
            now,
            threshold,
        ) == reconciled(entries, tabs, now, threshold),
{
    broadcast use {
        Seq::lemma_filter_pred,
        Seq::lemma_filter_contains,
        Seq::lemma_filter_contains_rev,
    };

    let sw = sweep(entries, tabs);
    let cur = current(entries, tabs, now);
    let r1 = reconciled(entries, tabs, now, threshold);
    lemma_one_record_per_external_tab(entries, tabs, now, threshold);
    lemma_current_tracks_external_tabs(entries, tabs, now);
    lemma_observe_all_urls(sw, tabs, now);
    // Every record that is left is about an external tab, shown at the recorded URL only.
    assert forall|k: int| 0 <= k < r1.len() implies has_external(tabs, (#[trigger] r1[k]).id)
        && shows_only(tabs, r1[k].id, r1[k].current_url) && !is_stale(r1[k], now, threshold) by {
        lemma_entry_at(r1, k);
        assert(r1.contains(r1[k]));
        assert(cur.contains(r1[k]));
        let j = choose|j: int| 0 <= j < cur.len() && cur[j] == r1[k];
        assert(has_external(tabs, cur[j].id));
    }
    assert forall|k: int| 0 <= k < r1.len() implies still_open(tabs)(#[trigger] r1[k]) by {}
    lemma_filter_all(r1, still_open(tabs));
    assert(sweep(r1, tabs) == r1);
    lemma_observe_all_places(r1, tabs, later);
    lemma_observe_all_places(r1, tabs, now);
    let again = current(r1, tabs, now);
    assert forall|k: int| 0 <= k < again.len() implies !stale_at(now, threshold)(
        #[trigger] again[k],
    ) by {
        if k < r1.len() {
            assert(again[k] == r1[k]);
        }
    }
    lemma_filter_none(again, stale_at(now, threshold));
    assert(closes(r1, tabs, now, threshold) =~= Seq::<ActionView>::empty());
    if closes(entries, tabs, now, threshold).len() == 0 {
        assert(stale_entries(entries, tabs, now, threshold).len() == 0);
        assert forall|k: int| 0 <= k < cur.len() implies fresh_at(now, threshold)(
            #[trigger] cur[k],
        ) by {
            if is_stale(cur[k], now, threshold) {
                assert(stale_entries(entries, tabs, now, threshold).contains(cur[k]));
            }
        }
        lemma_filter_all(cur, fresh_at(now, threshold));
        assert(r1 == cur);
        assert forall|id: Seq<char>| has_external(tabs, id) implies contains_id(r1, id) by {
            assert(contains_id(current(entries, tabs, now), id));
        }
        assert(again.len() == r1.len());
        assert(again =~= r1);
        assert forall|k: int| 0 <= k < r1.len() implies fresh_at(now, threshold)(
            #[trigger] r1[k],
        ) by {}
        lemma_filter_all(r1, fresh_at(now, threshold));
    }
}

} // verus!
