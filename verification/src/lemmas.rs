//! Facts about the model that the stated properties are proved from.

use vstd::prelude::*;
use crate::metadata::{contains_id, distinct_ids, entry_of, MetaView};
use crate::model::{consistent, has_external, observe, observe_all, shows_only};
use crate::tab::{is_external, TabView};

verus! {

/// Among records with distinct ids, the record about an id is the one found at any index
/// that holds that id.
pub proof fn lemma_entry_at(entries: Seq<MetaView>, k: int)
    requires
        distinct_ids(entries),
        0 <= k < entries.len(),
    ensures
        contains_id(entries, entries[k].id),
        entry_of(entries, entries[k].id) == entries[k],
{
    let id = entries[k].id;
    let c = choose|i: int| 0 <= i < entries.len() && (#[trigger] entries[i]).id == id;
    if c < k {
        assert(entries[c].id != entries[k].id);
    } else if k < c {
        assert(entries[k].id != entries[c].id);
    }
}

/// A snapshot shows an external tab with an id exactly if its last tab is one, or the
/// tabs before it show one.
pub proof fn lemma_has_external_step(tabs: Seq<TabView>, id: Seq<char>)
    requires
        tabs.len() > 0,
    ensures
        has_external(tabs, id) <==> has_external(tabs.drop_last(), id) || (is_external(
            tabs.last(),
        ) && tabs.last().id == id),
{
    let front = tabs.drop_last();
    if has_external(tabs, id) {
        let i = choose|i: int|
            0 <= i < tabs.len() && is_external(#[trigger] tabs[i]) && tabs[i].id == id;
        if i < tabs.len() - 1 {
            assert(front[i] == tabs[i]);
        }
    }
    if has_external(front, id) {
        let i = choose|i: int|
            0 <= i < front.len() && is_external(#[trigger] front[i]) && front[i].id == id;
        assert(tabs[i] == front[i]);
    }
    if is_external(tabs.last()) && tabs.last().id == id {
        assert(tabs[tabs.len() - 1] == tabs.last());
    }
}

/// Taking one tab into account adds at most the id of that tab, and only if it is external.
pub proof fn lemma_observe_ids(entries: Seq<MetaView>, t: TabView, now: u64, id: Seq<char>)
    ensures
        contains_id(observe(entries, t, now), id) <==> contains_id(entries, id) || (is_external(t)
            && t.id == id),
{
    let out = observe(entries, t, now);
    if contains_id(out, id) {
        let k = choose|k: int| 0 <= k < out.len() && (#[trigger] out[k]).id == id;
        if is_external(t) {
            if contains_id(entries, t.id) {
                assert(entries[k].id == id);
            } else if k < entries.len() {
                assert(entries[k].id == id);
            }
        }
    }
    if contains_id(entries, id) {
        let k = choose|k: int| 0 <= k < entries.len() && (#[trigger] entries[k]).id == id;
        assert(out[k].id == id);
    }
    if is_external(t) && t.id == id && !contains_id(entries, id) {
        assert(out[entries.len() as int].id == id);
    }
}

/// After a snapshot was taken into account, the tracked ids are those tracked before and
/// those of the external tabs of the snapshot.
pub proof fn lemma_observe_all_ids(
    entries: Seq<MetaView>,
    tabs: Seq<TabView>,
    now: u64,
    id: Seq<char>,
)
    ensures
        contains_id(observe_all(entries, tabs, now), id) <==> contains_id(entries, id)
            || has_external(tabs, id),
    decreases tabs.len(),
{
    if tabs.len() > 0 {
        lemma_observe_all_ids(entries, tabs.drop_last(), now, id);
        lemma_observe_ids(observe_all(entries, tabs.drop_last(), now), tabs.last(), now, id);
        lemma_has_external_step(tabs, id);
    }
}

/// A snapshot shows only one URL for an id exactly if the tabs before the last do, and
/// the last tab does.
pub proof fn lemma_shows_only_step(tabs: Seq<TabView>, id: Seq<char>, url: Seq<char>)
    requires
        tabs.len() > 0,
    ensures
        shows_only(tabs, id, url) <==> shows_only(tabs.drop_last(), id, url) && (is_external(
            tabs.last(),
        ) && tabs.last().id == id ==> tabs.last().url == url),
{
    let front = tabs.drop_last();
    if shows_only(tabs, id, url) {
        assert forall|i: int|
            0 <= i < front.len() && is_external(#[trigger] front[i]) && front[i].id
                == id implies front[i].url == url by {
            assert(tabs[i] == front[i]);
        }
        assert(tabs[tabs.len() - 1] == tabs.last());
    }
    if shows_only(front, id, url) && (is_external(tabs.last()) && tabs.last().id == id
        ==> tabs.last().url == url) {
        assert forall|i: int|
            0 <= i < tabs.len() && is_external(#[trigger] tabs[i]) && tabs[i].id
                == id implies tabs[i].url == url by {
            if i < tabs.len() - 1 {
                assert(front[i] == tabs[i]);
            }
        }
    }
}

/// What taking a snapshot into account does to the records, place by place.
///
/// The records that were there keep their place, their id and the time they were
/// opened; each is either untouched or has its last change at `now`, and is untouched
/// where the snapshot shows its tab only at the recorded URL. The records behind them
/// are new: first seen at `now`, about an external tab that was not tracked. Where
/// every external tab was tracked already, no record is added.
pub proof fn lemma_observe_all_places(entries: Seq<MetaView>, tabs: Seq<TabView>, now: u64)
    ensures
        observe_all(entries, tabs, now).len() >= entries.len(),
        forall|k: int|
            #![trigger observe_all(entries, tabs, now)[k]]
            0 <= k < entries.len() ==> {
                let r = observe_all(entries, tabs, now)[k];
                &&& r.id == entries[k].id
                &&& r.opened_at == entries[k].opened_at
                &&& (r == entries[k] || r.last_url_change_at == now)
                &&& (shows_only(tabs, entries[k].id, entries[k].current_url) ==> r == entries[k])
            },
        forall|k: int|
            #![trigger observe_all(entries, tabs, now)[k]]
            entries.len() <= k < observe_all(entries, tabs, now).len() ==> {
                let r = observe_all(entries, tabs, now)[k];
                &&& r.opened_at == now
                &&& r.last_url_change_at == now
                &&& has_external(tabs, r.id)
                &&& !contains_id(entries, r.id)
            },
        (forall|id: Seq<char>| has_external(tabs, id) ==> contains_id(entries, id))
            ==> observe_all(entries, tabs, now).len() == entries.len(),
    decreases tabs.len(),
{
    if tabs.len() > 0 {
        let front = tabs.drop_last();
        let t = tabs.last();
        let m = observe_all(entries, front, now);
        let r = observe(m, t, now);
        lemma_observe_all_places(entries, front, now);
        assert forall|k: int| 0 <= k < entries.len() implies ({
            let x = #[trigger] r[k];
            &&& x.id == entries[k].id
            &&& x.opened_at == entries[k].opened_at
            &&& (x == entries[k] || x.last_url_change_at == now)
            &&& (shows_only(tabs, entries[k].id, entries[k].current_url) ==> x == entries[k])
        }) by {
            let y = m[k];
            lemma_shows_only_step(tabs, entries[k].id, entries[k].current_url);
        }
        assert forall|k: int| entries.len() <= k < r.len() implies ({
            let x = #[trigger] r[k];
            &&& x.opened_at == now
            &&& x.last_url_change_at == now
            &&& has_external(tabs, x.id)
            &&& !contains_id(entries, x.id)
        }) by {
            if k < m.len() {
                let y = m[k];
                lemma_has_external_step(tabs, y.id);
            } else {
                lemma_has_external_step(tabs, t.id);
                lemma_observe_all_ids(entries, front, now, t.id);
            }
        }
        if forall|id: Seq<char>| has_external(tabs, id) ==> contains_id(entries, id) {
            assert forall|id: Seq<char>| has_external(front, id) implies contains_id(
                entries,
                id,
            ) by {
                lemma_has_external_step(tabs, id);
            }
            if is_external(t) {
                lemma_has_external_step(tabs, t.id);
                lemma_observe_all_ids(entries, front, now, t.id);
            }
        }
    }
}

/// The tabs before the last of a consistent snapshot are consistent.
pub proof fn lemma_consistent_front(tabs: Seq<TabView>)
    requires
        tabs.len() > 0,
        consistent(tabs),
    ensures
        consistent(tabs.drop_last()),
{
    let front = tabs.drop_last();
    assert forall|i: int, j: int|
        0 <= i < front.len() && 0 <= j < front.len() && is_external(#[trigger] front[i])
            && is_external(#[trigger] front[j]) && front[i].id == front[j].id implies front[i].url
        == front[j].url by {
        assert(tabs[i] == front[i] && tabs[j] == front[j]);
    }
}

/// After a consistent snapshot was taken into account, each record about one of its
/// external tabs holds the URL that the snapshot shows for that tab.
pub proof fn lemma_observe_all_urls(entries: Seq<MetaView>, tabs: Seq<TabView>, now: u64)
    requires
        consistent(tabs),
    ensures
        forall|k: int|
            #![trigger observe_all(entries, tabs, now)[k]]
            0 <= k < observe_all(entries, tabs, now).len() && has_external(
                tabs,
                observe_all(entries, tabs, now)[k].id,
            ) ==> shows_only(
                tabs,
                observe_all(entries, tabs, now)[k].id,
                observe_all(entries, tabs, now)[k].current_url,
            ),
    decreases tabs.len(),
{
    if tabs.len() > 0 {
        let front = tabs.drop_last();
        let t = tabs.last();
        let m = observe_all(entries, front, now);
        let r = observe(m, t, now);
        lemma_consistent_front(tabs);
        lemma_observe_all_urls(entries, front, now);
        assert forall|k: int|
            0 <= k < r.len() && has_external(tabs, (#[trigger] r[k]).id) implies shows_only(
            tabs,
            r[k].id,
            r[k].current_url,
        ) by {
            let x = r[k];
            lemma_has_external_step(tabs, x.id);
            lemma_shows_only_step(tabs, x.id, x.current_url);
            if is_external(t) && x.id == t.id {
                assert(x.current_url == t.url);
                assert forall|i: int|
                    0 <= i < tabs.len() && is_external(#[trigger] tabs[i]) && tabs[i].id
                        == x.id implies tabs[i].url == x.current_url by {
                    assert(tabs[tabs.len() - 1] == t);
                }
            } else {
                if is_external(t) && !contains_id(m, t.id) && k == m.len() {
                    assert(x.id == t.id);
                }
                assert(x == m[k]);
            }
        }
    } else {
        assert forall|k: int|
            0 <= k < entries.len() && has_external(
                tabs,
                (#[trigger] entries[k]).id,
            ) implies shows_only(tabs, entries[k].id, entries[k].current_url) by {}
    }
}

/// A filtered list tracks an id exactly if the list holds a record with that id that
/// passes the test.
pub proof fn lemma_filter_ids(
    entries: Seq<MetaView>,
    pred: spec_fn(MetaView) -> bool,
    id: Seq<char>,
)
    ensures
        contains_id(entries.filter(pred), id) <==> exists|k: int|
            0 <= k < entries.len() && (#[trigger] entries[k]).id == id && pred(entries[k]),
{
    broadcast use {
        Seq::lemma_filter_pred,
        Seq::lemma_filter_contains,
        Seq::lemma_filter_contains_rev,
    };

    let kept = entries.filter(pred);
    if contains_id(kept, id) {
        let i = choose|i: int| 0 <= i < kept.len() && (#[trigger] kept[i]).id == id;
        assert(pred(kept[i]));
        assert(kept.contains(kept[i]));
        assert(entries.contains(kept[i]));
        let k = choose|k: int| 0 <= k < entries.len() && entries[k] == kept[i];
        assert(entries[k].id == id && pred(entries[k]));
    }
    if exists|k: int|
        0 <= k < entries.len() && (#[trigger] entries[k]).id == id && pred(entries[k]) {
        let k = choose|k: int|
            0 <= k < entries.len() && (#[trigger] entries[k]).id == id && pred(entries[k]);
        assert(kept.contains(entries[k]));
        let i = choose|i: int| 0 <= i < kept.len() && kept[i] == entries[k];
        assert(kept[i].id == id);
    }
}

/// A test that every record passes filters nothing out.
pub proof fn lemma_filter_all(entries: Seq<MetaView>, pred: spec_fn(MetaView) -> bool)
    requires
        forall|k: int| 0 <= k < entries.len() ==> pred(#[trigger] entries[k]),
    ensures
        entries.filter(pred) == entries,
    decreases entries.len(),
{
    reveal(Seq::filter);
    if entries.len() > 0 {
        let front = entries.drop_last();
        assert forall|k: int| 0 <= k < front.len() implies pred(#[trigger] front[k]) by {
            assert(front[k] == entries[k]);
        }
        lemma_filter_all(front, pred);
        assert(front.push(entries.last()) =~= entries);
    }
}

/// A test that no record passes filters everything out.
pub proof fn lemma_filter_none(entries: Seq<MetaView>, pred: spec_fn(MetaView) -> bool)
    requires
        forall|k: int| 0 <= k < entries.len() ==> !pred(#[trigger] entries[k]),
    ensures
        entries.filter(pred) == Seq::<MetaView>::empty(),
    decreases entries.len(),
{
    reveal(Seq::filter);
    if entries.len() > 0 {
        let front = entries.drop_last();
        assert forall|k: int| 0 <= k < front.len() implies !pred(#[trigger] front[k]) by {
            assert(front[k] == entries[k]);
        }
        lemma_filter_none(front, pred);
    }
}

/// Among records with distinct ids, filtering keeps the record about an id as it is,
/// if it passes the test, and drops it otherwise.
pub proof fn lemma_filter_entry(
    entries: Seq<MetaView>,
    pred: spec_fn(MetaView) -> bool,
    id: Seq<char>,
)
    requires
        distinct_ids(entries),
        contains_id(entries, id),
    ensures
        contains_id(entries.filter(pred), id) <==> pred(entry_of(entries, id)),
        contains_id(entries.filter(pred), id) ==> entry_of(entries.filter(pred), id) == entry_of(
            entries,
            id,
        ),
{
    broadcast use {Seq::lemma_filter_contains, Seq::lemma_filter_contains_rev};

    let kept = entries.filter(pred);
    let a = choose|a: int| 0 <= a < entries.len() && (#[trigger] entries[a]).id == id;
    lemma_entry_at(entries, a);
    lemma_filter_ids(entries, pred, id);
    if contains_id(kept, id) {
        let k = choose|k: int|
            0 <= k < entries.len() && (#[trigger] entries[k]).id == id && pred(entries[k]);
        lemma_entry_at(entries, k);
        let i = choose|i: int| 0 <= i < kept.len() && (#[trigger] kept[i]).id == id;
        assert(kept.contains(kept[i]));
        assert(entries.contains(kept[i]));
        let j = choose|j: int| 0 <= j < entries.len() && entries[j] == kept[i];
        lemma_entry_at(entries, j);
    }
}

/// Filtering keeps records apart that were apart.
pub proof fn lemma_filter_keeps_distinct(entries: Seq<MetaView>, pred: spec_fn(MetaView) -> bool)
    requires
        distinct_ids(entries),
    ensures
        distinct_ids(entries.filter(pred)),
        forall|id: Seq<char>|
            contains_id(entries.filter(pred), id) ==> #[trigger] contains_id(entries, id),
    decreases entries.len(),
{
    reveal(Seq::filter);
    if entries.len() > 0 {
        let front = entries.drop_last();
        let last = entries.last();
        assert forall|i: int, j: int| 0 <= i < j < front.len() implies (#[trigger] front[i]).id != (
        #[trigger] front[j]).id by {
            assert(front[i] == entries[i] && front[j] == entries[j]);
        }
        lemma_filter_keeps_distinct(front, pred);
        let kept = front.filter(pred);
        assert forall|id: Seq<char>| contains_id(kept, id) implies #[trigger] contains_id(
            entries,
            id,
        ) by {
            assert(contains_id(front, id));
            let k = choose|k: int| 0 <= k < front.len() && (#[trigger] front[k]).id == id;
            assert(entries[k].id == id);
        }
        if pred(last) {
            let out = kept.push(last);
            assert forall|i: int, j: int| 0 <= i < j < out.len() implies (#[trigger] out[i]).id != (
            #[trigger] out[j]).id by {
                if j == kept.len() {
                    assert(kept[i].id == out[i].id);
                    assert(contains_id(kept, out[i].id));
                    assert(contains_id(front, out[i].id));
                    let k = choose|k: int|
                        0 <= k < front.len() && (#[trigger] front[k]).id == out[i].id;
                    assert(entries[k].id != entries[entries.len() - 1].id);
                } else {
                    assert(kept[i] == out[i] && kept[j] == out[j]);
                }
            }
            assert forall|id: Seq<char>| contains_id(out, id) implies #[trigger] contains_id(
                entries,
                id,
            ) by {
                let k = choose|k: int| 0 <= k < out.len() && (#[trigger] out[k]).id == id;
                if k == kept.len() {
                    assert(entries[entries.len() - 1].id == id);
                } else {
                    assert(kept[k].id == id);
                    assert(contains_id(kept, id));
                }
            }
        }
    }
}

/// Taking one tab into account keeps records apart that were apart.
pub proof fn lemma_observe_keeps_distinct(entries: Seq<MetaView>, t: TabView, now: u64)
    requires
        distinct_ids(entries),
    ensures
        distinct_ids(observe(entries, t, now)),
{
    let out = observe(entries, t, now);
    assert forall|i: int, j: int| 0 <= i < j < out.len() implies (#[trigger] out[i]).id != (
    #[trigger] out[j]).id by {
        if !is_external(t) {
        } else if contains_id(entries, t.id) {
            assert(out[i].id == entries[i].id && out[j].id == entries[j].id);
        } else {
            if j == entries.len() {
                assert(out[i] == entries[i]);
            } else {
                assert(out[i] == entries[i] && out[j] == entries[j]);
            }
        }
    }
}

/// Taking a whole snapshot into account keeps records apart that were apart.
pub proof fn lemma_observe_all_keeps_distinct(entries: Seq<MetaView>, tabs: Seq<TabView>, now: u64)
    requires
        distinct_ids(entries),
    ensures
        distinct_ids(observe_all(entries, tabs, now)),
    decreases tabs.len(),
{
    if tabs.len() > 0 {
        lemma_observe_all_keeps_distinct(entries, tabs.drop_last(), now);
        lemma_observe_keeps_distinct(
            observe_all(entries, tabs.drop_last(), now),
            tabs.last(),
            now,
        );
    }
}

} // verus!
