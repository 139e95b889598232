//! What the library asks its driver to do to the browser.

use vstd::prelude::*;

verus! {

/// One request to the browser session.
#[derive(Clone, Debug, PartialEq, Eq)]
pub enum Action {
    /// Close the tab with this id.
    Close(String),
    /// Open a new tab at this URL.
    Open(String),
    /// Bring the tab with this id to the front.
    Focus(String),
}

/// The mathematical content of an `Action`.
pub ghost enum ActionView {
    Close(Seq<char>),
    Open(Seq<char>),
    Focus(Seq<char>),
}

impl View for Action {
    type V = ActionView;

    open spec fn view(&self) -> ActionView {
        match self {
            Action::Close(id) => ActionView::Close(id@),
            Action::Open(url) => ActionView::Open(url@),
            Action::Focus(id) => ActionView::Focus(id@),
        }
    }
}

/// The views of a list of actions, in order.
pub open spec fn action_views(actions: Seq<Action>) -> Seq<ActionView> {
    actions.map_values(|a: Action| a@)
}

} // verus!
