//! Point-in-time descriptions of browser tabs.

use vstd::prelude::*;
use vstd::string::*;

verus! {

/// The page that a freshly opened tab is sent to.
pub const NEW_TAB_URL: &'static str = "chrome://newtab/";

/// The page that a freshly opened tab is sent to when `NEW_TAB_URL` cannot be reached.
pub const ABOUT_BLANK_URL: &'static str = "about:blank";

/// What kind of debugging target a tab is.
#[derive(Clone, Copy, Debug, PartialEq, Eq, Structural)]
pub enum TabKind {
    /// An ordinary page.
    Page,
    /// Anything else: a worker, an extension page, the browser itself.
    Other,
}

/// One tab as the browser reported it.
#[derive(Clone, Debug, PartialEq, Eq)]
pub struct TabSnapshot {
    pub id: String,
    pub kind: TabKind,
    pub url: String,
}

/// The mathematical content of a `TabSnapshot`.
pub ghost struct TabView {
    pub id: Seq<char>,
    pub kind: TabKind,
    pub url: Seq<char>,
}

impl View for TabSnapshot {
    type V = TabView;

    open spec fn view(&self) -> TabView {
        TabView { id: self.id@, kind: self.kind, url: self.url@ }
    }
}

/// Whether a URL is one of the two neutral placeholder pages.
pub open spec fn is_blank_url(url: Seq<char>) -> bool {
    url == ABOUT_BLANK_URL@ || url == NEW_TAB_URL@
}

/// A blank tab: a page that shows a placeholder.
pub open spec fn is_blank(t: TabView) -> bool {
    t.kind == TabKind::Page && is_blank_url(t.url)
}

/// An external tab: a page that shows anything but a placeholder.
pub open spec fn is_external(t: TabView) -> bool {
    t.kind == TabKind::Page && !is_blank_url(t.url)
}

/// The views of a list of snapshots, in order.
pub open spec fn tab_views(tabs: Seq<TabSnapshot>) -> Seq<TabView> {
    tabs.map_values(|t: TabSnapshot| t@)
}

/// Whether `url` names a placeholder page.
pub fn url_is_blank(url: &String) -> (b: bool)
    ensures
        b == is_blank_url(url@),
{
    let about = String::from_str(ABOUT_BLANK_URL);
    let new_tab = String::from_str(NEW_TAB_URL);
    *url == about || *url == new_tab
}

impl TabSnapshot {
    /// A page tab with the given id and URL.
    pub fn page(id: &str, url: &str) -> (t: TabSnapshot)
        ensures
            t@ == (TabView { id: id@, kind: TabKind::Page, url: url@ }),
    {
        TabSnapshot { id: String::from_str(id), kind: TabKind::Page, url: String::from_str(url) }
    }

    /// Whether this tab is a page that shows a placeholder.
    pub fn is_blank(&self) -> (b: bool)
        ensures
            b == is_blank(self@),
    {
        match self.kind {
            TabKind::Page => url_is_blank(&self.url),
            TabKind::Other => false,
        }
    }

    /// Whether this tab is a page that shows anything but a placeholder.
    pub fn is_external(&self) -> (b: bool)
        ensures
            b == is_external(self@),
    {
        match self.kind {
            TabKind::Page => !url_is_blank(&self.url),
            TabKind::Other => false,
        }
    }
}

} // verus!
