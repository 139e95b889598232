//! The poll loop as a state machine.
//!
//! The driver asks what to do next, does it, and reports what happened. The
//! scheduler keeps the phase and the tab records, and answers each report with the
//! actions to carry out and the time to wait before asking again.

use vstd::prelude::*;
use vstd::string::*;
use crate::action::{action_views, Action, ActionView};
use crate::config::{Config, RETRY_INTERVAL};
use crate::focus::{focus_actions, focus_plan, url_views};
use crate::launch::{pick_window_size, DEFAULT_HEIGHT, DEFAULT_WIDTH};
use crate::metadata::{MetaView, ReconcilerState};
use crate::model::{planned_actions, reconciled};
use crate::snapshot::{parse_snapshot, parsed, SnapshotError};
use crate::tab::{tab_views, TabSnapshot, TabView};

verus! {

/// Whether a browser session is at hand.
#[derive(Clone, Copy, Debug, PartialEq, Eq, Structural)]
pub enum Phase {
    /// There is no session: one has to be started.
    NoSession,
    /// There is a session: its tabs are polled.
    HasSession,
}

/// What the driver reports.
#[derive(Clone, Debug, PartialEq, Eq)]
pub enum Event {
    /// A session was started.
    SessionAcquired,
    /// No session could be started.
    SessionFailed,
    /// The session answered the status query with this text.
    Status(String),
    /// The status query failed, for now.
    FetchFailed,
    /// The session is gone.
    SessionLost,
}

/// What the driver is asked to do next.
#[derive(Clone, Copy, Debug, PartialEq, Eq)]
pub enum Command {
    /// Start a session with a fresh profile and a window of this size.
    AcquireSession { width: u32, height: u32 },
    /// Ask the session for its tabs.
    FetchTabs,
}

/// The answer to a report.
#[derive(Clone, Debug, PartialEq, Eq)]
pub struct Step {
    /// What to do to the browser, in this order. A failing action is skipped.
    pub actions: Vec<Action>,
    /// Seconds to wait before asking for the next command.
    pub wait_secs: u64,
    /// Why the status answer was not used, if it was not.
    pub error: Option<SnapshotError>,
}

/// The poll loop's memory: the phase, the tab records of the session, the settings.
#[derive(Clone, Debug, PartialEq, Eq)]
pub struct Scheduler {
    pub phase: Phase,
    pub state: ReconcilerState,
    pub config: Config,
}

/// What a report leads to: the new phase and records, and the answer.
pub ghost struct Outcome {
    pub phase: Phase,
    pub records: Seq<MetaView>,
    pub actions: Seq<ActionView>,
    pub wait_secs: u64,
    pub error: Option<SnapshotError>,
}

/// The actions of one cycle: those of the reconciliation, then, where tabs are to be
/// brought to the front, one `Focus` for each tab that qualifies.
pub open spec fn cycle_actions(
    config: Config,
    records: Seq<MetaView>,
    tabs: Seq<TabView>,
    now: u64,
) -> Seq<ActionView> {
    planned_actions(
        records,
        tabs,
        now,
        config.staleness_threshold,
        config.min_blank_tabs as nat,
    ) + if config.focus_tabs {
        focus_plan(tabs, url_views(config.focus_exclusions@))
    } else {
        Seq::empty()
    }
}

/// Nothing to do but wait.
pub open spec fn idle(phase: Phase, records: Seq<MetaView>, wait_secs: u64) -> Outcome {
    Outcome { phase, records, actions: Seq::empty(), wait_secs, error: None }
}

/// What a report leads to.
///
/// Without a session: a started session is taken up with no records, at once; a
/// failed start is retried after `RETRY_INTERVAL`. With a session: a status answer
/// that reads as a tab list runs one cycle; one that does not, or a failed query,
/// changes nothing; either way the next poll comes after the poll interval. A lost
/// session drops the records, and a new one is started at once. A report that does not
/// fit the phase changes nothing.
pub open spec fn outcome(
    config: Config,
    phase: Phase,
    records: Seq<MetaView>,
    event: Event,
    now: u64,
) -> Outcome {
    match phase {
        Phase::NoSession => match event {
            Event::SessionAcquired => idle(Phase::HasSession, Seq::empty(), 0),
            _ => idle(Phase::NoSession, records, RETRY_INTERVAL),
        },
        Phase::HasSession => match event {
            Event::Status(text) => match parsed(text@) {
                Ok(tabs) => Outcome {
                    phase: Phase::HasSession,
                    records: reconciled(records, tabs, now, config.staleness_threshold),
                    actions: cycle_actions(config, records, tabs, now),
                    wait_secs: config.poll_interval,
                    error: None,
                },
                Err(e) => Outcome {
                    phase: Phase::HasSession,
                    records,
                    actions: Seq::empty(),
                    wait_secs: config.poll_interval,
                    error: Some(e),
                },
            },
            Event::SessionLost => idle(Phase::NoSession, Seq::empty(), 0),
            _ => idle(Phase::HasSession, records, config.poll_interval),
        },
    }
}

/// Runs one cycle on a tab list: the reconciliation, then the focus policy where it is
/// switched on.
pub fn run_cycle(
    config: &Config,
    state: &mut ReconcilerState,
    tabs: &Vec<TabSnapshot>,
    now: u64,
) -> (actions: Vec<Action>)
    requires
        old(state).wf(),
    ensures
        final(state).wf(),
        final(state)@ == reconciled(
            old(state)@,
            tab_views(tabs@),
            now,
            config.staleness_threshold,
        ),
        action_views(actions@) == cycle_actions(*config, old(state)@, tab_views(tabs@), now),
{
    let mut actions = state.reconcile(tabs, now, config.staleness_threshold, config.min_blank_tabs);
    if config.focus_tabs {
        let mut focus = focus_actions(tabs, &config.focus_exclusions);
        proof {
            assert(action_views(actions@ + focus@) =~= action_views(actions@) + action_views(
                focus@,
            ));
        }
        actions.append(&mut focus);
    } else {
        assert(action_views(actions@) + Seq::<ActionView>::empty() =~= action_views(actions@));
    }
    actions
}

impl Scheduler {
    /// A scheduler that has no session yet.
    pub fn new(config: Config) -> (s: Scheduler)
        ensures
            s.phase == Phase::NoSession,
            s.state.wf(),
            s.state@ == Seq::<MetaView>::empty(),
            s.config == config,
    {
        Scheduler { phase: Phase::NoSession, state: ReconcilerState::new(), config }
    }

    /// What the driver should do next: start a session, with a window size drawn from
    /// the configured ones, or poll the session that is there.
    pub fn next_command(&self) -> (command: Command)
        ensures
            self.phase == Phase::HasSession ==> command == Command::FetchTabs,
            self.phase == Phase::NoSession ==> (command matches Command::AcquireSession {
                width,
                height,
            } && if self.config.window_resolutions@.len() == 0 {
                (width, height) == (DEFAULT_WIDTH, DEFAULT_HEIGHT)
            } else {
                self.config.window_resolutions@.contains((width, height))
            }),
    {
        match self.phase {
            Phase::NoSession => {
                let (width, height) = pick_window_size(&self.config.window_resolutions);
                Command::AcquireSession { width, height }
            },
            Phase::HasSession => Command::FetchTabs,
        }
    }

    /// Takes a report of the driver at time `now` and answers it.
    pub fn on_event(&mut self, event: &Event, now: u64) -> (step: Step)
        requires
            old(self).state.wf(),
        ensures
            final(self).state.wf(),
            final(self).config == old(self).config,
            final(self).phase == outcome(
                old(self).config,
                old(self).phase,
                old(self).state@,
                *event,
                now,
            ).phase,
            final(self).state@ == outcome(
                old(self).config,
                old(self).phase,
                old(self).state@,
                *event,
                now,
            ).records,
            action_views(step.actions@) == outcome(
                old(self).config,
                old(self).phase,
                old(self).state@,
                *event,
                now,
            ).actions,
            step.wait_secs == outcome(
                old(self).config,
                old(self).phase,
                old(self).state@,
                *event,
                now,
            ).wait_secs,
            step.error == outcome(
                old(self).config,
                old(self).phase,
                old(self).state@,
                *event,
                now,
            ).error,
    {
        let actions: Vec<Action> = Vec::new();
        assert(action_views(actions@) =~= Seq::<ActionView>::empty());
        match self.phase {
            Phase::NoSession => match event {
                Event::SessionAcquired => {
                    self.phase = Phase::HasSession;
                    self.state = ReconcilerState::new();
                    Step { actions, wait_secs: 0, error: None }
                },
                _ => Step { actions, wait_secs: RETRY_INTERVAL, error: None },
            },
            Phase::HasSession => match event {
                Event::Status(text) => match parse_snapshot(text.as_str()) {
                    Ok(tabs) => {
                        let actions = run_cycle(&self.config, &mut self.state, &tabs, now);
                        Step { actions, wait_secs: self.config.poll_interval, error: None }
                    },
                    Err(e) => Step {
                        actions,
                        wait_secs: self.config.poll_interval,
                        error: Some(e),
                    },
                },
                Event::SessionLost => {
                    self.phase = Phase::NoSession;
                    self.state = ReconcilerState::new();
                    Step { actions, wait_secs: 0, error: None }
                },
                _ => Step { actions, wait_secs: self.config.poll_interval, error: None },
            },
        }
    }
}

/// What can go wrong while the keeper runs.
#[derive(Clone, Copy, Debug, PartialEq, Eq, Structural)]
pub enum Failure {
    /// The tab list could not be fetched or read: the next poll tries again.
    TransientFetch,
    /// The session is gone: a new one is started.
    SessionLost,
    /// An action on one tab failed: that tab is skipped in this cycle.
    Action,
    /// The profile directory or the browser is not to be had: the process gives up.
    Startup,
}

impl Failure {
    /// Whether the process ends on this failure. Only a failure at startup ends it.
    pub fn is_fatal(&self) -> (b: bool)
        ensures
            b == (*self == Failure::Startup),
    {
        match self {
            Failure::Startup => true,
            _ => false,
        }
    }
}

/// A session ends only when it is reported lost: whatever else is reported, and
/// whatever a status answer holds, the scheduler stays with the session it has.
pub proof fn lemma_only_loss_ends_a_session(
    config: Config,
    records: Seq<MetaView>,
    event: Event,
    now: u64,
)
    ensures
        outcome(config, Phase::HasSession, records, event, now).phase == Phase::NoSession
            <==> event is SessionLost,
{
}

/// Only a status answer that reads as a tab list touches the records of a session or
/// leads to actions.
pub proof fn lemma_only_a_tab_list_acts(
    config: Config,
    records: Seq<MetaView>,
    event: Event,
    now: u64,
)
    requires
        !(event matches Event::Status(text) && parsed(text@) is Ok),
        !(event is SessionLost),
    ensures
        outcome(config, Phase::HasSession, records, event, now).records == records,
        outcome(config, Phase::HasSession, records, event, now).actions == Seq::<
            ActionView,
        >::empty(),
        outcome(config, Phase::HasSession, records, event, now).wait_secs == config.poll_interval,
{
}

} // verus!
