//! The refresh schedule.
//!
//! One cycle samples and publishes the system metrics, then samples and
//! publishes the media session, then rests for a fixed time. The rest is
//! counted from the end of the cycle's work, so a slow cycle delays the
//! next one and is never caught up. The schedule has no end.
//!
//! [`Scheduler`] only says what comes next; the caller does it.
use vstd::prelude::*;

verus! {

/// The rest between two cycles, in milliseconds.
pub const REFRESH_PERIOD_MS: u64 = 2000;

/// What the caller shall do next.
#[derive(Clone, Copy, Debug, PartialEq, Eq, Structural)]
pub enum SchedulerAction {
    /// Refresh the metrics tracker and publish its snapshot.
    PublishMetrics,
    /// Refresh the media tracker and publish its snapshot.
    PublishMedia,
    /// Sleep for this many milliseconds.
    Rest(u64),
}

/// Where in a cycle the schedule stands: the action that is due.
#[derive(Clone, Copy, Debug, PartialEq, Eq, Structural)]
pub enum Phase {
    Metrics,
    Media,
    Rest,
}

/// The action that is due in a phase.
pub open spec fn action_in(phase: Phase) -> SchedulerAction {
    match phase {
        Phase::Metrics => SchedulerAction::PublishMetrics,
        Phase::Media => SchedulerAction::PublishMedia,
        Phase::Rest => SchedulerAction::Rest(REFRESH_PERIOD_MS),
    }
}

/// The phase that follows a phase.
pub open spec fn phase_after(phase: Phase) -> Phase {
    match phase {
        Phase::Metrics => Phase::Media,
        Phase::Media => Phase::Rest,
        Phase::Rest => Phase::Metrics,
    }
}

/// The name of the event under which an action publishes, if it publishes.
pub open spec fn event_of(action: SchedulerAction) -> Option<Seq<char>> {
    match action {
        SchedulerAction::PublishMetrics => Some("system_update"@),
        SchedulerAction::PublishMedia => Some("media_update"@),
        SchedulerAction::Rest(_) => None,
    }
}

/// A cycle is metrics, then media, then a rest of the fixed period, and
/// ends where it began.
pub proof fn lemma_cycle_order()
    ensures
        action_in(Phase::Metrics) == SchedulerAction::PublishMetrics,
        action_in(phase_after(Phase::Metrics)) == SchedulerAction::PublishMedia,
        action_in(phase_after(phase_after(Phase::Metrics))) == SchedulerAction::Rest(
            REFRESH_PERIOD_MS,
        ),
        phase_after(phase_after(phase_after(Phase::Metrics))) == Phase::Metrics,
{
}

/// Wherever the schedule stands, three actions later it stands there
/// again: every action stays due once per cycle, forever.
pub proof fn lemma_schedule_repeats(phase: Phase)
    ensures
        phase_after(phase_after(phase_after(phase))) == phase,
        phase_after(phase) != phase,
{
}

/// Says what to do next, cycle after cycle.
pub struct Scheduler {
    phase: Phase,
}

impl View for Scheduler {
    type V = Phase;

    closed spec fn view(&self) -> Phase {
        self.phase
    }
}

impl Scheduler {
    /// A schedule at the start of a cycle.
    pub fn new() -> (scheduler: Self)
        ensures
            scheduler@ == Phase::Metrics,
    {
        Scheduler { phase: Phase::Metrics }
    }

    /// The action that is due, and moves on to the next.
    pub fn next_action(&mut self) -> (action: SchedulerAction)
        ensures
            action == action_in(old(self)@),
            final(self)@ == phase_after(old(self)@),
    {
        match self.phase {
            Phase::Metrics => {
                self.phase = Phase::Media;
                SchedulerAction::PublishMetrics
            },
            Phase::Media => {
                self.phase = Phase::Rest;
                SchedulerAction::PublishMedia
            },
            Phase::Rest => {
                self.phase = Phase::Metrics;
                SchedulerAction::Rest(REFRESH_PERIOD_MS)
            },
        }
    }
}

/// The name of the event under which an action publishes its snapshot.
pub fn event_name(action: SchedulerAction) -> (name: Option<&'static str>)
    ensures
        name.deep_view() == event_of(action),
{
    match action {
        SchedulerAction::PublishMetrics => Some("system_update"),
        SchedulerAction::PublishMedia => Some("media_update"),
        SchedulerAction::Rest(_) => None,
    }
}

} // verus!
