//! Which tabs to bring to the front.

use vstd::prelude::*;
use crate::action::{action_views, Action, ActionView};
use crate::tab::{is_blank_url, tab_views, url_is_blank, TabSnapshot, TabView};

verus! {

/// The views of a list of URLs, in order.
pub open spec fn url_views(urls: Seq<String>) -> Seq<Seq<char>> {
    urls.map_values(|u: String| u@)
}

/// The test for a tab: it shows neither a placeholder nor an excluded URL.
pub open spec fn wants_focus(excluded: Seq<Seq<char>>) -> spec_fn(TabView) -> bool {
    |t: TabView| !is_blank_url(t.url) && !excluded.contains(t.url)
}

/// One `Focus` for each tab after the first that shows neither a placeholder nor an
/// excluded URL, in the order of the snapshot.
pub open spec fn focus_plan(tabs: Seq<TabView>, excluded: Seq<Seq<char>>) -> Seq<ActionView> {
    if tabs.len() == 0 {
        Seq::empty()
    } else {
        tabs.skip(1).filter(wants_focus(excluded)).map_values(|t: TabView| ActionView::Focus(t.id))
    }
}

/// Whether `url` is one of `excluded`.
pub fn url_is_excluded(url: &String, excluded: &Vec<String>) -> (b: bool)
    ensures
        b == url_views(excluded@).contains(url@),
{
    let ghost all = url_views(excluded@);
    let mut i: usize = 0;
    while i < excluded.len()
        invariant
            i <= excluded.len(),
            all == url_views(excluded@),
            forall|j: int| 0 <= j < i ==> all[j] != url@,
        decreases excluded.len() - i,
    {
        assert(all[i as int] == excluded@[i as int]@);
        if excluded[i] == *url {
            return true;
        }
        i += 1;
    }
    false
}

/// The tabs to bring to the front, in order: every tab of the snapshot but the first,
/// except those that show a placeholder or one of the `excluded` URLs.
pub fn focus_actions(snapshot: &Vec<TabSnapshot>, excluded: &Vec<String>) -> (actions: Vec<Action>)
    ensures
        action_views(actions@) == focus_plan(tab_views(snapshot@), url_views(excluded@)),
{
    let ghost tabs = tab_views(snapshot@);
    let ghost rest = tabs.skip(1);
    let ghost wanted = wants_focus(url_views(excluded@));
    let ghost to_focus = |t: TabView| ActionView::Focus(t.id);
    let mut actions: Vec<Action> = Vec::new();
    if snapshot.len() == 0 {
        assert(action_views(actions@) =~= Seq::<ActionView>::empty());
        return actions;
    }
    proof {
        reveal(Seq::filter);
        assert(rest.take(0).filter(wanted) =~= Seq::<TabView>::empty());
        assert(action_views(actions@) =~= Seq::<TabView>::empty().map_values(to_focus));
    }
    let mut i: usize = 1;
    while i < snapshot.len()
        invariant
            1 <= i <= snapshot.len(),
            tabs == tab_views(snapshot@),
            rest == tabs.skip(1),
            wanted == wants_focus(url_views(excluded@)),
            to_focus == |t: TabView| ActionView::Focus(t.id),
            action_views(actions@) == rest.take(i - 1).filter(wanted).map_values(to_focus),
        decreases snapshot.len() - i,
    {
        let tab = &snapshot[i];
        proof {
            assert(rest[i - 1] == tab@);
            assert(rest.take(i as int) =~= rest.take(i - 1).push(rest[i - 1]));
            rest.take(i - 1).lemma_filter_push(rest[i - 1], wanted);
        }
        if !url_is_blank(&tab.url) && !url_is_excluded(&tab.url, excluded) {
            let focus = Action::Focus(tab.id.clone());
            proof {
                let chosen = rest.take(i - 1).filter(wanted);
                assert(action_views(actions@.push(focus)) =~= action_views(actions@).push(focus@));
                assert(chosen.push(rest[i - 1]).map_values(to_focus) =~= chosen.map_values(
                    to_focus,
                ).push(focus@));
            }
            actions.push(focus);
        }
        i += 1;
    }
    proof {
        assert(rest.take(snapshot.len() - 1) =~= rest);
    }
    actions
}

} // verus!
