//! Attaching to a browser from outside, through one of its blank tabs.

use vstd::prelude::*;
use vstd::string::*;
use crate::tab::{tab_views, TabKind, TabSnapshot, TabView, NEW_TAB_URL};

verus! {

/// What the address of a page's debugging socket starts with; the page's id follows.
pub const PAGE_SOCKET_PREFIX: &'static str = "ws://127.0.0.1:9222/devtools/page/";

/// A page that shows the new-tab page.
pub open spec fn is_new_tab_page(t: TabView) -> bool {
    t.kind == TabKind::Page && t.url == NEW_TAB_URL@
}

/// Where the first page that shows the new-tab page stands in the snapshot, if there
/// is one.
pub fn first_new_tab_page(snapshot: &Vec<TabSnapshot>) -> (r: Option<usize>)
    ensures
        match r {
            Some(i) => i < snapshot@.len() && is_new_tab_page(tab_views(snapshot@)[i as int])
                && forall|j: int|
                0 <= j < i ==> !is_new_tab_page(#[trigger] tab_views(snapshot@)[j]),
            None => forall|j: int|
                0 <= j < snapshot@.len() ==> !is_new_tab_page(#[trigger] tab_views(snapshot@)[j]),
        },
{
    let ghost tabs = tab_views(snapshot@);
    let new_tab = String::from_str(NEW_TAB_URL);
    let mut i: usize = 0;
    while i < snapshot.len()
        invariant
            i <= snapshot.len(),
            tabs == tab_views(snapshot@),
            new_tab@ == NEW_TAB_URL@,
            forall|j: int| 0 <= j < i ==> !is_new_tab_page(#[trigger] tabs[j]),
        decreases snapshot.len() - i,
    {
        assert(tabs[i as int] == snapshot@[i as int]@);
        let is_page = match snapshot[i].kind {
            TabKind::Page => true,
            TabKind::Other => false,
        };
        if is_page && snapshot[i].url == new_tab {
            return Some(i);
        }
        i += 1;
    }
    None
}

/// The address of the debugging socket of the page with this id.
pub fn page_socket_url(id: &str) -> (url: String)
    ensures
        url@ == PAGE_SOCKET_PREFIX@ + id@,
{
    String::from_str(PAGE_SOCKET_PREFIX).concat(id)
}

} // verus!
