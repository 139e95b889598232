//! The settings of the tab keeper.

use vstd::prelude::*;

verus! {

/// Seconds between two polls, unless configured.
pub const DEFAULT_POLL_INTERVAL: u64 = 10;

/// Seconds a tab may show the same URL before it is closed, unless configured.
pub const DEFAULT_STALENESS_THRESHOLD: u64 = 300;

/// How many blank tabs are kept open, unless configured.
pub const DEFAULT_MIN_BLANK_TABS: usize = 1;

/// Seconds to wait after a session could not be started.
pub const RETRY_INTERVAL: u64 = 5;

/// The settings of the tab keeper.
#[derive(Clone, Debug, PartialEq, Eq)]
pub struct Config {
    /// The profile directory; `None` for the default one.
    pub profile_path: Option<String>,
    /// Seconds between two polls.
    pub poll_interval: u64,
    /// Seconds a tab may show the same URL before it is closed.
    pub staleness_threshold: u64,
    /// How many blank tabs are kept open.
    pub min_blank_tabs: usize,
    /// The window sizes of which one is drawn for each new session, width first.
    pub window_resolutions: Vec<(u32, u32)>,
    /// Whether tabs are brought to the front in each cycle.
    pub focus_tabs: bool,
    /// URLs whose tabs are never brought to the front.
    pub focus_exclusions: Vec<String>,
}

/// The window sizes that are configured by default.
pub open spec fn default_resolutions() -> Seq<(u32, u32)> {
    seq![
        (1920u32, 1487u32),
        (1920u32, 1527u32),
        (1600u32, 1111u32),
        (1600u32, 1137u32),
        (1680u32, 1137u32),
        (1600u32, 1287u32),
        (1600u32, 1367u32),
        (1920u32, 1167u32),
        (1920u32, 1287u32),
        (1920u32, 1167u32),
    ]
}

/// The window sizes that are configured by default.
pub fn default_window_resolutions() -> (list: Vec<(u32, u32)>)
    ensures
        list@ == default_resolutions(),
{
    let mut list: Vec<(u32, u32)> = Vec::new();
    list.push((1920, 1487));
    list.push((1920, 1527));
    list.push((1600, 1111));
    list.push((1600, 1137));
    list.push((1680, 1137));
    list.push((1600, 1287));
    list.push((1600, 1367));
    list.push((1920, 1167));
    list.push((1920, 1287));
    list.push((1920, 1167));
    assert(list@ =~= default_resolutions());
    list
}

impl Default for Config {
    /// The default settings: the default profile directory, a poll every 10 seconds,
    /// tabs closed after 300 seconds on one URL, one blank tab, the default window
    /// sizes, and no tab brought to the front.
    fn default() -> (c: Config)
        ensures
            c.profile_path is None,
            c.poll_interval == DEFAULT_POLL_INTERVAL,
            c.staleness_threshold == DEFAULT_STALENESS_THRESHOLD,
            c.min_blank_tabs == DEFAULT_MIN_BLANK_TABS,
            c.window_resolutions@ == default_resolutions(),
            !c.focus_tabs,
            c.focus_exclusions@.len() == 0,
    {
        Config {
            profile_path: None,
            poll_interval: DEFAULT_POLL_INTERVAL,
            staleness_threshold: DEFAULT_STALENESS_THRESHOLD,
            min_blank_tabs: DEFAULT_MIN_BLANK_TABS,
            window_resolutions: default_window_resolutions(),
            focus_tabs: false,
            focus_exclusions: Vec::new(),
        }
    }
}

} // verus!
