//! One poll cycle: bring the records up to date and decide what to do.

use vstd::prelude::*;
use vstd::string::*;
use crate::action::{action_views, Action, ActionView};
use crate::lemmas::{
    lemma_filter_keeps_distinct, lemma_observe_all_keeps_distinct, lemma_observe_keeps_distinct,
};
use crate::metadata::{
    distinct_ids, meta_views, position_of, MetaView, ReconcilerState, TabMetadata,
};
use crate::model::{
    blank, blank_count, current, fresh_at, has_external, is_stale, missing_blank, observe,
    observe_all, opens, planned_actions, reconciled, refresh, stale_at, still_open, sweep,
};
use crate::tab::{is_external, tab_views, TabSnapshot, TabView, NEW_TAB_URL};

verus! {

/// Whether the snapshot shows an external tab with this id.
pub fn snapshot_has_external(snapshot: &Vec<TabSnapshot>, id: &String) -> (b: bool)
    ensures
        b == has_external(tab_views(snapshot@), id@),
{
    let mut i: usize = 0;
    while i < snapshot.len()
        invariant
            i <= snapshot.len(),
            forall|j: int|
                0 <= j < i ==> !(is_external(#[trigger] tab_views(snapshot@)[j]) && tab_views(
                    snapshot@,
                )[j].id == id@),
        decreases snapshot.len() - i,
    {
        assert(tab_views(snapshot@)[i as int] == snapshot@[i as int]@);
        if snapshot[i].is_external() && snapshot[i].id == *id {
            return true;
        }
        i += 1;
    }
    false
}

/// The records whose tab is still among the external tabs of the snapshot, in their order.
pub fn sweep_entries(entries: &Vec<TabMetadata>, snapshot: &Vec<TabSnapshot>) -> (out: Vec<
    TabMetadata,
>)
    ensures
        meta_views(out@) == sweep(meta_views(entries@), tab_views(snapshot@)),
{
    let ghost all = meta_views(entries@);
    let ghost tabs = tab_views(snapshot@);
    let mut out: Vec<TabMetadata> = Vec::new();
    let mut i: usize = 0;
    proof {
        reveal(Seq::filter);
        assert(all.take(0).filter(still_open(tabs)) =~= Seq::<MetaView>::empty());
        assert(meta_views(out@) =~= Seq::<MetaView>::empty());
    }
    while i < entries.len()
        invariant
            i <= entries.len(),
            all == meta_views(entries@),
            tabs == tab_views(snapshot@),
            meta_views(out@) == sweep(all.take(i as int), tabs),
        decreases entries.len() - i,
    {
        let keep = snapshot_has_external(snapshot, &entries[i].id);
        proof {
            assert(all[i as int] == entries@[i as int]@);
            assert(all.take(i + 1) =~= all.take(i as int).push(all[i as int]));
            all.take(i as int).lemma_filter_push(all[i as int], still_open(tabs));
        }
        if keep {
            let copy = entries[i].duplicate();
            proof {
                assert(meta_views(out@.push(copy)) =~= meta_views(out@).push(copy@));
            }
            out.push(copy);
        }
        i += 1;
    }
    proof {
        assert(all.take(entries.len() as int) =~= all);
    }
    out
}

/// Takes one tab of the snapshot into account.
pub(crate) fn observe_tab(entries: &mut Vec<TabMetadata>, t: &TabSnapshot, now: u64)
    requires
        distinct_ids(meta_views(old(entries)@)),
    ensures
        distinct_ids(meta_views(final(entries)@)),
        meta_views(final(entries)@) == observe(meta_views(old(entries)@), t@, now),
{
    let ghost before = meta_views(entries@);
    proof {
        lemma_observe_keeps_distinct(before, t@, now);
    }
    if !t.is_external() {
        return ;
    }
    match position_of(entries, &t.id) {
        Some(i) => {
            assert(before[i as int] == entries@[i as int]@);
            if entries[i].current_url != t.url {
                let renewed = TabMetadata {
                    id: entries[i].id.clone(),
                    opened_at: entries[i].opened_at,
                    last_url_change_at: now,
                    current_url: t.url.clone(),
                };
                entries.set(i, renewed);
            }
            proof {
                let after = meta_views(entries@);
                let expected = observe(before, t@, now);
                assert(after.len() == expected.len());
                assert forall|j: int| 0 <= j < after.len() implies after[j] == expected[j] by {
                    assert(after[j] == entries@[j]@);
                    assert(expected[j] == refresh(before[j], t@, now));
                    if j != i {
                        assert(before[j] == old(entries)@[j]@);
                        if j < i {
                            assert(before[j].id != before[i as int].id);
                        } else {
                            assert(before[i as int].id != before[j].id);
                        }
                    }
                }
                assert(after =~= expected);
            }
        },
        None => {
            let fresh = TabMetadata::first_sight(&t.id, &t.url, now);
            proof {
                assert(meta_views(entries@.push(fresh)) =~= meta_views(entries@).push(fresh@));
            }
            entries.push(fresh);
        },
    }
}

/// Takes every tab of the snapshot into account, first to last.
pub(crate) fn observe_snapshot(
    entries: &mut Vec<TabMetadata>,
    snapshot: &Vec<TabSnapshot>,
    now: u64,
)
    requires
        distinct_ids(meta_views(old(entries)@)),
    ensures
        distinct_ids(meta_views(final(entries)@)),
        meta_views(final(entries)@) == observe_all(
            meta_views(old(entries)@),
            tab_views(snapshot@),
            now,
        ),
{
    let ghost tabs = tab_views(snapshot@);
    let ghost before = meta_views(entries@);
    let mut i: usize = 0;
    while i < snapshot.len()
        invariant
            i <= snapshot.len(),
            tabs == tab_views(snapshot@),
            distinct_ids(meta_views(entries@)),
            meta_views(entries@) == observe_all(before, tabs.take(i as int), now),
        decreases snapshot.len() - i,
    {
        proof {
            assert(tabs.take(i + 1).drop_last() =~= tabs.take(i as int));
            assert(tabs.take(i + 1).last() == snapshot@[i as int]@);
        }
        observe_tab(entries, &snapshot[i], now);
        i += 1;
    }
    proof {
        assert(tabs.take(snapshot.len() as int) =~= tabs);
    }
}

/// Whether a record's tab has shown the same URL for longer than `threshold`.
pub fn entry_is_stale(e: &TabMetadata, now: u64, threshold: u64) -> (b: bool)
    ensures
        b == is_stale(e@, now, threshold),
{
    now > e.last_url_change_at && now - e.last_url_change_at > threshold
}

/// Parts the records into those to keep and one `Close` for each of the others.
pub fn split_stale(entries: &Vec<TabMetadata>, now: u64, threshold: u64) -> (r: (
    Vec<TabMetadata>,
    Vec<Action>,
))
    ensures
        meta_views(r.0@) == meta_views(entries@).filter(fresh_at(now, threshold)),
        action_views(r.1@) == meta_views(entries@).filter(stale_at(now, threshold)).map_values(
            |e: MetaView| ActionView::Close(e.id),
        ),
{
    let ghost all = meta_views(entries@);
    let ghost to_close = |e: MetaView| ActionView::Close(e.id);
    let mut kept: Vec<TabMetadata> = Vec::new();
    let mut actions: Vec<Action> = Vec::new();
    let mut i: usize = 0;
    proof {
        reveal(Seq::filter);
        assert(all.take(0).filter(fresh_at(now, threshold)) =~= Seq::<MetaView>::empty());
        assert(all.take(0).filter(stale_at(now, threshold)) =~= Seq::<MetaView>::empty());
        assert(meta_views(kept@) =~= Seq::<MetaView>::empty());
        assert(action_views(actions@) =~= Seq::<MetaView>::empty().map_values(to_close));
    }
    while i < entries.len()
        invariant
            i <= entries.len(),
            all == meta_views(entries@),
            to_close == |e: MetaView| ActionView::Close(e.id),
            meta_views(kept@) == all.take(i as int).filter(fresh_at(now, threshold)),
            action_views(actions@) == all.take(i as int).filter(
                stale_at(now, threshold),
            ).map_values(to_close),
        decreases entries.len() - i,
    {
        proof {
            assert(all[i as int] == entries@[i as int]@);
            assert(all.take(i + 1) =~= all.take(i as int).push(all[i as int]));
            all.take(i as int).lemma_filter_push(all[i as int], fresh_at(now, threshold));
            all.take(i as int).lemma_filter_push(all[i as int], stale_at(now, threshold));
        }
        if entry_is_stale(&entries[i], now, threshold) {
            let close = Action::Close(entries[i].id.clone());
            proof {
                let stale = all.take(i as int).filter(stale_at(now, threshold));
                assert(action_views(actions@.push(close)) =~= action_views(actions@).push(close@));
                assert(stale.push(all[i as int]).map_values(to_close) =~= stale.map_values(
                    to_close,
                ).push(close@));
            }
            actions.push(close);
        } else {
            let copy = entries[i].duplicate();
            proof {
                assert(meta_views(kept@.push(copy)) =~= meta_views(kept@).push(copy@));
            }
            kept.push(copy);
        }
        i += 1;
    }
    proof {
        assert(all.take(entries.len() as int) =~= all);
    }
    (kept, actions)
}

/// How many blank tabs the snapshot shows.
pub fn count_blank(snapshot: &Vec<TabSnapshot>) -> (n: usize)
    ensures
        n == blank_count(tab_views(snapshot@)),
{
    let ghost tabs = tab_views(snapshot@);
    let mut n: usize = 0;
    let mut i: usize = 0;
    proof {
        reveal(Seq::filter);
        assert(tabs.take(0).filter(blank()) =~= Seq::<TabView>::empty());
    }
    while i < snapshot.len()
        invariant
            i <= snapshot.len(),
            tabs == tab_views(snapshot@),
            n <= i,
            n == tabs.take(i as int).filter(blank()).len(),
        decreases snapshot.len() - i,
    {
        proof {
            assert(tabs[i as int] == snapshot@[i as int]@);
            assert(tabs.take(i + 1) =~= tabs.take(i as int).push(tabs[i as int]));
            tabs.take(i as int).lemma_filter_push(tabs[i as int], blank());
        }
        if snapshot[i].is_blank() {
            n += 1;
        }
        i += 1;
    }
    proof {
        assert(tabs.take(snapshot.len() as int) =~= tabs);
    }
    n
}

/// Appends one `Open` of the new-tab page for each blank tab that is missing.
pub fn push_opens(actions: &mut Vec<Action>, snapshot: &Vec<TabSnapshot>, min_blank_tabs: usize)
    ensures
        action_views(final(actions)@) == action_views(old(actions)@) + opens(
            tab_views(snapshot@),
            min_blank_tabs as nat,
        ),
{
    let ghost tabs = tab_views(snapshot@);
    let ghost before = action_views(actions@);
    let have = count_blank(snapshot);
    let missing: usize = if have >= min_blank_tabs {
        0
    } else {
        min_blank_tabs - have
    };
    assert(missing == missing_blank(tabs, min_blank_tabs as nat));
    let mut k: usize = 0;
    proof {
        assert(before + Seq::new(0, |i: int| ActionView::Open(NEW_TAB_URL@)) =~= before);
    }
    while k < missing
        invariant
            k <= missing,
            action_views(actions@) == before + Seq::new(
                k as nat,
                |i: int| ActionView::Open(NEW_TAB_URL@),
            ),
        decreases missing - k,
    {
        let open = Action::Open(String::from_str(NEW_TAB_URL));
        proof {
            assert(action_views(actions@.push(open)) =~= action_views(actions@).push(open@));
            assert(before + Seq::new((k + 1) as nat, |i: int| ActionView::Open(NEW_TAB_URL@)) =~= (
            before + Seq::new(k as nat, |i: int| ActionView::Open(NEW_TAB_URL@))).push(open@));
        }
        actions.push(open);
        k += 1;
    }
}

impl ReconcilerState {
    /// Runs one poll cycle at time `now` on the tabs that the browser reports.
    ///
    /// Records of tabs that are gone are dropped without an action. Each
    /// external tab of the snapshot gets a record, or has its record renewed
    /// where its URL changed. A tab that has shown the same URL for longer
    /// than `staleness_threshold` is closed and its record dropped. Blank
    /// tabs are opened until `min_blank_tabs` of them exist.
    pub fn reconcile(
        &mut self,
        snapshot: &Vec<TabSnapshot>,
        now: u64,
        staleness_threshold: u64,
        min_blank_tabs: usize,
    ) -> (actions: Vec<Action>)
        requires
            old(self).wf(),
        ensures
            final(self).wf(),
            final(self)@ == reconciled(
                old(self)@,
                tab_views(snapshot@),
                now,
                staleness_threshold,
            ),
            action_views(actions@) == planned_actions(
                old(self)@,
                tab_views(snapshot@),
                now,
                staleness_threshold,
                min_blank_tabs as nat,
            ),
    {
        let ghost tabs = tab_views(snapshot@);
        proof {
            self.lemma_view();
            lemma_filter_keeps_distinct(self@, still_open(tabs));
            lemma_observe_all_keeps_distinct(sweep(self@, tabs), tabs, now);
            lemma_filter_keeps_distinct(
                current(self@, tabs, now),
                fresh_at(now, staleness_threshold),
            );
        }
        let mut live = sweep_entries(&self.entries, snapshot);
        observe_snapshot(&mut live, snapshot, now);
        let (kept, mut actions) = split_stale(&live, now, staleness_threshold);
        push_opens(&mut actions, snapshot, min_blank_tabs);
        self.entries = kept;
        proof {
            self.lemma_view();
        }
        actions
    }
}

} // verus!
