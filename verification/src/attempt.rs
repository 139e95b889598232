//! How an action is tried, and what is tried next when that fails.
//!
//! Opening a blank tab and bringing a tab to the front each have a second way.
//! Closing has none. When the last way has failed, the action is given up for this
//! cycle and the next action is taken up.

use vstd::prelude::*;
use vstd::string::*;
use crate::action::{Action, ActionView};
use crate::tab::{ABOUT_BLANK_URL, NEW_TAB_URL};

verus! {

/// One call on the browser session.
#[derive(Clone, Debug, PartialEq, Eq)]
pub enum Attempt {
    /// Close the tab with this id.
    Close(String),
    /// Open a new tab and send it to this URL.
    OpenAt(String),
    /// Send the tab that was just opened to this URL instead.
    NavigateTo(String),
    /// Bring the tab with this id to the front.
    BringToFront(String),
    /// Activate the tab with this id.
    Activate(String),
}

/// The mathematical content of an `Attempt`.
pub ghost enum AttemptView {
    Close(Seq<char>),
    OpenAt(Seq<char>),
    NavigateTo(Seq<char>),
    BringToFront(Seq<char>),
    Activate(Seq<char>),
}

impl View for Attempt {
    type V = AttemptView;

    open spec fn view(&self) -> AttemptView {
        match self {
            Attempt::Close(id) => AttemptView::Close(id@),
            Attempt::OpenAt(url) => AttemptView::OpenAt(url@),
            Attempt::NavigateTo(url) => AttemptView::NavigateTo(url@),
            Attempt::BringToFront(id) => AttemptView::BringToFront(id@),
            Attempt::Activate(id) => AttemptView::Activate(id@),
        }
    }
}

/// The view of an attempt that may not be there.
pub open spec fn attempt_view(a: Option<Attempt>) -> Option<AttemptView> {
    match a {
        Some(a) => Some(a@),
        None => None,
    }
}

/// The way an action is tried first.
pub open spec fn first_try(action: ActionView) -> AttemptView {
    match action {
        ActionView::Close(id) => AttemptView::Close(id),
        ActionView::Open(url) => AttemptView::OpenAt(url),
        ActionView::Focus(id) => AttemptView::BringToFront(id),
    }
}

/// The way to try after `failed` has failed, if there is one: `about:blank` after the
/// new-tab page could not be opened, activating after bringing to the front.
pub open spec fn next_try(failed: AttemptView) -> Option<AttemptView> {
    match failed {
        AttemptView::OpenAt(url) => if url == NEW_TAB_URL@ {
            Some(AttemptView::NavigateTo(ABOUT_BLANK_URL@))
        } else {
            None
        },
        AttemptView::BringToFront(id) => Some(AttemptView::Activate(id)),
        _ => None,
    }
}

impl Action {
    /// The way this action is tried first.
    pub fn first_attempt(&self) -> (a: Attempt)
        ensures
            a@ == first_try(self@),
    {
        match self {
            Action::Close(id) => Attempt::Close(id.clone()),
            Action::Open(url) => Attempt::OpenAt(url.clone()),
            Action::Focus(id) => Attempt::BringToFront(id.clone()),
        }
    }
}

impl Attempt {
    /// The way to try after this one has failed; `None` when the action is given up.
    pub fn after_failure(&self) -> (next: Option<Attempt>)
        ensures
            attempt_view(next) == next_try(self@),
    {
        match self {
            Attempt::OpenAt(url) => {
                if *url == String::from_str(NEW_TAB_URL) {
                    Some(Attempt::NavigateTo(String::from_str(ABOUT_BLANK_URL)))
                } else {
                    None
                }
            },
            Attempt::BringToFront(id) => Some(Attempt::Activate(id.clone())),
            _ => None,
        }
    }
}

/// After two failures in a row, nothing is left to try.
pub proof fn lemma_at_most_two_tries(action: ActionView)
    ensures
        next_try(first_try(action)) matches Some(second) ==> next_try(second) is None,
{
}

} // verus!
