//! The lifecycle controller: the one slot that holds the record of the live
//! child, and what start, stop, restart and status do to it.
//!
//! The caller keeps a [`Supervisor`] behind one lock and calls its methods
//! under that lock; spawning, querying and terminating processes is the
//! caller's part. A start is [`Supervisor::start`], then the spawn if that is
//! the decision, then [`Supervisor::finish_start`], all under the lock. A stop
//! is [`Supervisor::stop`] under the lock, then the termination of the record
//! that was taken, outside it.

use crate::process::{Liveness, ProcessRecord, SupervisionMode};
use crate::platform::Platform;
use crate::termination::{
    Termination, TerminationAction, TerminationEvent, PROCESS_WAIT_TIMEOUT_MS,
};
use vstd::prelude::*;

verus! {

/// The pause between the stop and the start of a restart, which lets the
/// operating system release the port and the handles.
pub const RESTART_DELAY_MS: u64 = PROCESS_WAIT_TIMEOUT_MS;

/// What a status query answers.
#[derive(Clone, Copy, PartialEq, Eq, Structural, Debug)]
pub enum ServerStatus {
    /// No child is recorded.
    Absent,
    /// A child is recorded, and so believed alive.
    Running,
}

/// What a start decides.
#[derive(Clone, Copy, PartialEq, Eq, Structural, Debug)]
pub enum StartDecision {
    /// The recorded child is alive: nothing is to be done.
    AlreadyRunning,
    /// No child is recorded any more: one is to be spawned.
    Spawn,
}

/// What the opening of a console window asks for.
#[derive(Clone, Copy, PartialEq, Eq, Structural, Debug)]
pub enum ConsoleDecision {
    /// A child runs in a pseudo-terminal: attach a listener to its session.
    Attach,
    /// None does: start the server in console mode.
    StartSession,
}

/// What a restart asks of the caller before the start.
#[derive(Clone, Copy, PartialEq, Eq, Structural, Debug)]
pub struct RestartPlan {
    /// The child to terminate, if one was recorded.
    pub terminate: Option<ProcessRecord>,
    /// The pause to make after that, in milliseconds.
    pub delay_ms: u64,
}

/// The slot for the record of the live child.
#[derive(Debug)]
pub struct Supervisor {
    record: Option<ProcessRecord>,
}

impl View for Supervisor {
    type V = Option<ProcessRecord>;

    closed spec fn view(&self) -> Option<ProcessRecord> {
        self.record
    }
}

/// The status that goes with a slot.
pub open spec fn status_of(slot: Option<ProcessRecord>) -> ServerStatus {
    match slot {
        Some(_) => ServerStatus::Running,
        None => ServerStatus::Absent,
    }
}

/// What the opening of a console window asks for: to listen to the session
/// of the recorded child if it runs in a pseudo-terminal, else to start one.
pub open spec fn console_spec(slot: Option<ProcessRecord>) -> ConsoleDecision {
    match slot {
        Some(record) => match record.mode {
            SupervisionMode::Console => ConsoleDecision::Attach,
            SupervisionMode::Pipes => ConsoleDecision::StartSession,
        },
        None => ConsoleDecision::StartSession,
    }
}

/// What a start does to the slot and what it decides, given what the
/// operating system says of the recorded child. A child that has exited, or
/// of which nothing can be learnt, is forgotten.
pub open spec fn start_spec(slot: Option<ProcessRecord>, liveness: Liveness) -> (
    Option<ProcessRecord>,
    StartDecision,
) {
    if slot is Some && liveness == Liveness::Running {
        (slot, StartDecision::AlreadyRunning)
    } else {
        (None, StartDecision::Spawn)
    }
}

/// The slot after a spawn: the new child's record if it succeeded, else
/// as it was.
pub open spec fn finish_start_spec<E>(
    slot: Option<ProcessRecord>,
    outcome: Result<ProcessRecord, E>,
) -> Option<ProcessRecord> {
    match outcome {
        Ok(record) => Some(record),
        Err(_) => slot,
    }
}

/// A whole start: the decision, and the spawn with its outcome where the
/// decision is to spawn. Gives the slot afterwards and whether a child
/// was spawned.
pub open spec fn start_call<E>(
    slot: Option<ProcessRecord>,
    liveness: Liveness,
    outcome: Result<ProcessRecord, E>,
) -> (Option<ProcessRecord>, bool) {
    let (cleared, decision) = start_spec(slot, liveness);
    match decision {
        StartDecision::AlreadyRunning => (cleared, false),
        StartDecision::Spawn => (finish_start_spec(cleared, outcome), outcome is Ok),
    }
}

/// A whole stop: the slot afterwards, and the actions that the termination
/// of the recorded child hands out when it begins at `now` and `events` are
/// reported to it. Without a recorded child there are none.
pub open spec fn stop_call(
    slot: Option<ProcessRecord>,
    platform: Platform,
    now: u64,
    events: Seq<(TerminationEvent, u64)>,
) -> (Option<ProcessRecord>, Seq<TerminationAction>) {
    match slot {
        Some(record) => {
            let (begun, first) = Termination::begin_spec(record, platform, now);
            (None, seq![first] + begun.run(events).1)
        },
        None => (None, Seq::empty()),
    }
}

/// Starts in a row, each finding the recorded child alive: the slot
/// afterwards and how many children were spawned.
pub open spec fn starts_while_alive<E>(
    slot: Option<ProcessRecord>,
    outcomes: Seq<Result<ProcessRecord, E>>,
) -> (Option<ProcessRecord>, nat)
    decreases outcomes.len(),
{
    if outcomes.len() == 0 {
        (slot, 0)
    } else {
        let (before, spawned) = starts_while_alive(slot, outcomes.drop_last());
        let (after, one_more) = start_call(before, Liveness::Running, outcomes.last());
        (
            after,
            if one_more {
                spawned + 1
            } else {
                spawned
            },
        )
    }
}

impl Supervisor {
    /// A supervisor without a child.
    pub fn new() -> (supervisor: Supervisor)
        ensures
            supervisor@ is None,
    {
        Supervisor { record: None }
    }

    /// Whether a child is recorded. Changes nothing, and asks the
    /// operating system nothing.
    pub fn status(&self) -> (status: ServerStatus)
        ensures
            status == status_of(self@),
    {
        match self.record {
            Some(_) => ServerStatus::Running,
            None => ServerStatus::Absent,
        }
    }

    /// The recorded child, if there is one.
    pub fn record(&self) -> (record: Option<ProcessRecord>)
        ensures
            record == self@,
    {
        self.record
    }

    /// Decides what the opening of a console window asks for. Where a
    /// session is to be started, that is a start like any other, and
    /// spawns no second child.
    pub fn open_console(&self) -> (decision: ConsoleDecision)
        ensures
            decision == console_spec(self@),
    {
        match self.record {
            Some(record) => match record.mode {
                SupervisionMode::Console => ConsoleDecision::Attach,
                SupervisionMode::Pipes => ConsoleDecision::StartSession,
            },
            None => ConsoleDecision::StartSession,
        }
    }

    /// Decides a start. `liveness` is what the operating system says of
    /// the recorded child; without one it is not looked at.
    pub fn start(&mut self, liveness: Liveness) -> (decision: StartDecision)
        ensures
            (final(self)@, decision) == start_spec(old(self)@, liveness),
    {
        match self.record {
            Some(_) => match liveness {
                Liveness::Running => StartDecision::AlreadyRunning,
                _ => {
                    self.record = None;
                    StartDecision::Spawn
                },
            },
            None => StartDecision::Spawn,
        }
    }

    /// Takes the outcome of the spawn that a start decided on: records
    /// the child, or hands the failure on and leaves the slot as it was.
    pub fn finish_start<E>(&mut self, outcome: Result<ProcessRecord, E>) -> (result: Result<(), E>)
        ensures
            final(self)@ == finish_start_spec(old(self)@, outcome),
            match outcome {
                Ok(_) => result is Ok,
                Err(e) => result == Err::<(), E>(e),
            },
    {
        match outcome {
            Ok(record) => {
                self.record = Some(record);
                Ok(())
            },
            Err(e) => Err(e),
        }
    }

    /// Takes the record out of the slot, for the caller to terminate the
    /// child outside the lock. Without a record nothing is to be done.
    pub fn stop(&mut self) -> (taken: Option<ProcessRecord>)
        ensures
            final(self)@ is None,
            taken == old(self)@,
            status_of(final(self)@) == ServerStatus::Absent,
    {
        let taken = self.record;
        self.record = None;
        taken
    }

    /// Begins a restart: a stop, and the pause that the caller makes after
    /// the termination and before the start.
    pub fn restart(&mut self) -> (plan: RestartPlan)
        ensures
            final(self)@ is None,
            plan == (RestartPlan { terminate: old(self)@, delay_ms: RESTART_DELAY_MS }),
    {
        let terminate = self.stop();
        RestartPlan { terminate, delay_ms: RESTART_DELAY_MS }
    }
}

/// Start is idempotent: however many starts find the recorded child alive,
/// none spawns a child, and the record stays as it is.
pub proof fn lemma_start_is_idempotent<E>(
    record: ProcessRecord,
    outcomes: Seq<Result<ProcessRecord, E>>,
)
    ensures
        starts_while_alive(Some(record), outcomes) == (Some(record), 0nat),
    decreases outcomes.len(),
{
    if outcomes.len() > 0 {
        lemma_start_is_idempotent(record, outcomes.drop_last());
    }
}

/// Two starts that race spawn one child: the lock puts them in some
/// order, the first spawns and records the child, and the second, finding
/// it alive, does nothing.
pub proof fn lemma_racing_starts_spawn_once<E>(
    liveness: Liveness,
    child: ProcessRecord,
    other: Result<ProcessRecord, E>,
)
    ensures
        ({
            let (first_slot, first_spawned) = start_call(None, liveness, Ok::<ProcessRecord, E>(child));
            let (second_slot, second_spawned) = start_call(first_slot, Liveness::Running, other);
            &&& first_spawned
            &&& !second_spawned
            &&& second_slot == Some(child)
        }),
{
}

/// After a stop the status is absent, whatever the slot held and however
/// the termination went: whether the child had exited before, went at the
/// request, or had to be killed.
pub proof fn lemma_stop_leaves_absent(
    slot: Option<ProcessRecord>,
    platform: Platform,
    now: u64,
    events: Seq<(TerminationEvent, u64)>,
)
    ensures
        status_of(stop_call(slot, platform, now, events).0) == ServerStatus::Absent,
{
}

/// A second console window spawns no second child: once a start has
/// recorded a child in console mode, the opening of a console window asks
/// to attach to its session, for as long as starts find it alive.
pub proof fn lemma_one_console_session<E>(
    record: ProcessRecord,
    outcomes: Seq<Result<ProcessRecord, E>>,
)
    requires
        record.mode == SupervisionMode::Console,
    ensures
        console_spec(starts_while_alive(Some(record), outcomes).0) == ConsoleDecision::Attach,
{
    lemma_start_is_idempotent(record, outcomes);
}

/// A second stop right after a stop does nothing: it finds no record, and
/// hands out no action, so nothing is killed twice.
pub proof fn lemma_second_stop_does_nothing(
    slot: Option<ProcessRecord>,
    platform: Platform,
    now: u64,
    events: Seq<(TerminationEvent, u64)>,
    later: u64,
    later_events: Seq<(TerminationEvent, u64)>,
)
    ensures
        ({
            let (after_first, _) = stop_call(slot, platform, now, events);
            let (after_second, actions) = stop_call(after_first, platform, later, later_events);
            after_second is None && actions.len() == 0
        }),
{
}

/// A restart without a running child is a start: if no child is recorded,
/// the stop of the restart hands out no action, and the start that follows
/// decides and records as a start alone does. If a child is recorded that
/// is found not to be alive, the start that follows does so as well.
pub proof fn lemma_restart_without_child_is_start<E>(
    slot: Option<ProcessRecord>,
    liveness: Liveness,
    platform: Platform,
    now: u64,
    events: Seq<(TerminationEvent, u64)>,
    outcome: Result<ProcessRecord, E>,
)
    requires
        slot is None || liveness != Liveness::Running,
    ensures
        ({
            let (stopped, actions) = stop_call(slot, platform, now, events);
            &&& start_call(stopped, liveness, outcome) == start_call(slot, liveness, outcome)
            &&& slot is None ==> actions.len() == 0
        }),
{
}

} // verus!
