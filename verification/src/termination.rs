//! Ending a child and its descendants: what to ask of the operating system,
//! in which order, and when to stop waiting.
//!
//! A [`Termination`] decides; the caller acts. The caller performs the action
//! it is handed, then reports what came of it together with the reading of a
//! monotonic clock, and is handed the next action, until that is
//! [`TerminationAction::Finished`]. Failures of single actions are not
//! reported: the sequence goes on regardless.

use crate::process::{Liveness, ProcessRecord, StreamMode, SupervisionMode};
use crate::clock::{elapsed, elapsed_ms};
use crate::platform::Platform;
use crate::text::{decimal_digits, decimal_string};
use vstd::prelude::*;
use vstd::string::*;

verus! {

/// How long a child is given to exit after the request to terminate.
pub const GRACEFUL_SHUTDOWN_WAIT_MS: u64 = 50;

/// How long the exit of a child is polled for before it is killed.
pub const PROCESS_WAIT_TIMEOUT_MS: u64 = 200;

/// The pause between two polls for the exit of a child.
pub const POLL_INTERVAL_MS: u64 = 10;

/// The most actions that a termination hands out, the closing
/// [`TerminationAction::Finished`] included, while the clock is honest.
pub const MAX_TERMINATION_ACTIONS: u64 = 50;

/// The most milliseconds of sleep that a termination asks for in all,
/// while the clock is honest.
pub const MAX_TERMINATION_SLEEP_MS: u64 = GRACEFUL_SHUTDOWN_WAIT_MS + PROCESS_WAIT_TIMEOUT_MS;

/// One thing for the caller to do.
#[derive(Clone, Copy, PartialEq, Eq, Structural, Debug)]
pub enum TerminationAction {
    /// Send the terminate signal to the process `target`.
    SendTerminate { target: i32 },
    /// Terminate the job `job`, and with it every process in it.
    TerminateJob { job: usize },
    /// Kill the process `pid` and its descendants by an outside tool,
    /// without a console window.
    KillTree { pid: u32 },
    /// Kill by image name what escaped the tree, without a console window.
    KillImage,
    /// Drop the pseudo-terminal's writer and master.
    ReleaseConsole,
    /// Sleep for `ms` milliseconds.
    Sleep { ms: u64 },
    /// Ask whether the child has exited, without blocking.
    QueryLiveness,
    /// Kill the child.
    ForceKill,
    /// Wait for the child, so that no zombie is left.
    Reap,
    /// Nothing is left to do.
    Finished,
}

/// What came of the action handed out last.
#[derive(Clone, Copy, PartialEq, Eq, Structural, Debug)]
pub enum TerminationEvent {
    /// It was performed; whether it failed is not asked.
    Completed,
    /// The answer to [`TerminationAction::QueryLiveness`].
    Observed(Liveness),
}

/// The action that was handed out last and whose outcome is awaited.
#[derive(Clone, Copy, PartialEq, Eq, Structural, Debug)]
pub enum Stage {
    /// The request of this index among the termination requests.
    Request { index: usize },
    /// The sleep of the grace period.
    GraceSleep,
    /// The query after the grace period.
    GraceCheck,
    /// The kill of a child that outlived the grace period.
    EarlyKill,
    /// A query of the poll that began at `started_at`, made at `issued_at`.
    PollCheck { started_at: u64, issued_at: u64 },
    /// A pause of the poll that began at `started_at`, begun at `issued_at`.
    PollSleep { started_at: u64, issued_at: u64 },
    /// The final kill.
    FinalKill,
    /// The final wait.
    Reaping,
    /// `Finished`.
    Done,
}

/// The termination of one child, as far as it has got.
#[derive(Clone, Copy, PartialEq, Eq, Structural, Debug)]
pub struct Termination {
    pub record: ProcessRecord,
    pub platform: Platform,
    pub stage: Stage,
}

/// The process to signal: `pid` itself if it names a single process to the
/// signalling call, which takes zero and negative numbers for groups.
pub open spec fn signal_target(pid: u32) -> Option<i32> {
    if 0 < pid <= i32::MAX {
        Some(pid as i32)
    } else {
        None
    }
}

/// The requests that open a termination. On Windows: the job if there
/// is one, else the tree by process identifier and then the image by name.
/// Elsewhere: the terminate signal. In console mode the pseudo-terminal is
/// released after that.
pub open spec fn termination_requests(record: ProcessRecord, platform: Platform) -> Seq<
    TerminationAction,
> {
    let kill = match platform {
        Platform::Windows => match record.job {
            Some(job) => seq![TerminationAction::TerminateJob { job }],
            None => seq![
                TerminationAction::KillTree { pid: record.pid },
                TerminationAction::KillImage,
            ],
        },
        _ => match signal_target(record.pid) {
            Some(target) => seq![TerminationAction::SendTerminate { target }],
            None => Seq::empty(),
        },
    };
    match record.mode {
        SupervisionMode::Console => kill.push(TerminationAction::ReleaseConsole),
        SupervisionMode::Pipes => kill,
    }
}

/// A run of the outside tool that kills processes.
#[derive(Debug)]
pub struct KillCommand {
    pub program: String,
    pub args: Vec<String>,
    pub stdin: StreamMode,
    pub stdout: StreamMode,
    pub stderr: StreamMode,
    /// Whether the tool is kept from opening a console window.
    pub hide_window: bool,
}

/// A run of the kill tool as plain values.
pub struct KillCommandView {
    pub program: Seq<char>,
    pub args: Seq<Seq<char>>,
    pub stdin: StreamMode,
    pub stdout: StreamMode,
    pub stderr: StreamMode,
    pub hide_window: bool,
}

impl View for KillCommand {
    type V = KillCommandView;

    open spec fn view(&self) -> KillCommandView {
        KillCommandView {
            program: self.program@,
            args: self.args.deep_view(),
            stdin: self.stdin,
            stdout: self.stdout,
            stderr: self.stderr,
            hide_window: self.hide_window,
        }
    }
}

/// The arguments with which the outside tool kills the process `pid` and
/// its descendants.
pub open spec fn tree_kill_arguments(pid: u32) -> Seq<Seq<char>> {
    seq!["/F"@, "/T"@, "/PID"@, decimal_digits(pid as nat)]
}

/// The arguments with which the outside tool kills every process of the
/// server's image.
pub open spec fn image_kill_arguments() -> Seq<Seq<char>> {
    seq!["/F"@, "/IM"@, "qbit-manage-windows-amd64.exe"@]
}

/// A run of the kill tool with the given arguments: it gets nothing to
/// read, what it writes is dropped, and it opens no console window.
pub open spec fn hidden_kill(args: Seq<Seq<char>>) -> KillCommandView {
    KillCommandView {
        program: "taskkill"@,
        args,
        stdin: StreamMode::Null,
        stdout: StreamMode::Null,
        stderr: StreamMode::Null,
        hide_window: true,
    }
}

/// The run of the kill tool that performs an action, for the two actions
/// that are performed by it.
pub open spec fn kill_command_spec(action: TerminationAction) -> Option<KillCommandView> {
    match action {
        TerminationAction::KillTree { pid } => Some(hidden_kill(tree_kill_arguments(pid))),
        TerminationAction::KillImage => Some(hidden_kill(image_kill_arguments())),
        _ => None,
    }
}

/// How many more pauses a poll can make that has run for `elapsed`
/// milliseconds, if each pause lasts as long as it was asked to.
pub open spec fn pauses_left(elapsed: int) -> int {
    if elapsed >= PROCESS_WAIT_TIMEOUT_MS {
        0
    } else {
        (PROCESS_WAIT_TIMEOUT_MS - elapsed + POLL_INTERVAL_MS - 1) / (POLL_INTERVAL_MS as int)
    }
}

impl Termination {
    /// The same termination at another stage.
    pub open spec fn at(self, stage: Stage) -> Termination {
        Termination { record: self.record, platform: self.platform, stage }
    }

    /// The requests that opened it.
    pub open spec fn requests(self) -> Seq<TerminationAction> {
        termination_requests(self.record, self.platform)
    }

    /// The head of the poll that began at `started_at`: another query
    /// while the time is not up, else the final kill.
    pub open spec fn poll(self, started_at: u64, now: u64) -> (Termination, TerminationAction) {
        if elapsed(started_at, now) < PROCESS_WAIT_TIMEOUT_MS {
            (
                self.at(Stage::PollCheck { started_at, issued_at: now }),
                TerminationAction::QueryLiveness,
            )
        } else {
            (self.at(Stage::FinalKill), TerminationAction::ForceKill)
        }
    }

    /// What follows the requests: on Windows the poll, elsewhere the grace
    /// period first.
    pub open spec fn after_requests(self, now: u64) -> (Termination, TerminationAction) {
        match self.platform {
            Platform::Windows => self.poll(now, now),
            _ => (
                self.at(Stage::GraceSleep),
                TerminationAction::Sleep { ms: GRACEFUL_SHUTDOWN_WAIT_MS },
            ),
        }
    }

    /// The first action of the termination of `record`.
    pub open spec fn begin_spec(record: ProcessRecord, platform: Platform, now: u64) -> (
        Termination,
        TerminationAction,
    ) {
        let t = Termination { record, platform, stage: Stage::Request { index: 0 } };
        if t.requests().len() > 0 {
            (t, t.requests()[0])
        } else {
            t.after_requests(now)
        }
    }

    /// The state and the action that follow when `event` is reported at the
    /// time `now`.
    pub open spec fn next(self, event: TerminationEvent, now: u64) -> (
        Termination,
        TerminationAction,
    ) {
        match self.stage {
            Stage::Request { index } => if index + 1 < self.requests().len() {
                (
                    self.at(Stage::Request { index: (index + 1) as usize }),
                    self.requests()[index + 1],
                )
            } else {
                self.after_requests(now)
            },
            Stage::GraceSleep => (self.at(Stage::GraceCheck), TerminationAction::QueryLiveness),
            Stage::GraceCheck => match event {
                TerminationEvent::Observed(Liveness::Exited) => self.poll(now, now),
                _ => (self.at(Stage::EarlyKill), TerminationAction::ForceKill),
            },
            Stage::EarlyKill => self.poll(now, now),
            Stage::PollCheck { started_at, issued_at } => match event {
                TerminationEvent::Observed(Liveness::Running) => (
                    self.at(Stage::PollSleep { started_at, issued_at: now }),
                    TerminationAction::Sleep { ms: POLL_INTERVAL_MS },
                ),
                _ => (self.at(Stage::FinalKill), TerminationAction::ForceKill),
            },
            Stage::PollSleep { started_at, issued_at } => self.poll(started_at, now),
            Stage::FinalKill => (self.at(Stage::Reaping), TerminationAction::Reap),
            Stage::Reaping => (self.at(Stage::Done), TerminationAction::Finished),
            Stage::Done => (self, TerminationAction::Finished),
        }
    }

    /// The state after `events`, each with its clock reading, and the
    /// actions handed out for them.
    pub open spec fn run(self, events: Seq<(TerminationEvent, u64)>) -> (
        Termination,
        Seq<TerminationAction>,
    )
        decreases events.len(),
    {
        if events.len() == 0 {
            (self, Seq::empty())
        } else {
            let (before, actions) = self.run(events.drop_last());
            let (after, action) = before.next(events.last().0, events.last().1);
            (after, actions.push(action))
        }
    }

    /// Whether a clock reading `now` can follow the awaited action: a pause
    /// lasts at least as long as it was asked to, and the clock does not
    /// go back while a query is answered.
    pub open spec fn honest(self, now: u64) -> bool {
        match self.stage {
            Stage::PollCheck { started_at, issued_at } => now >= issued_at,
            Stage::PollSleep { started_at, issued_at } => now >= issued_at + POLL_INTERVAL_MS,
            _ => true,
        }
    }

    /// Whether the state is one that a termination can reach while the
    /// clock is honest.
    pub open spec fn well_formed(self) -> bool {
        match self.stage {
            Stage::Request { index } => index < self.requests().len(),
            Stage::PollCheck { started_at, issued_at } => started_at <= issued_at
                < started_at + PROCESS_WAIT_TIMEOUT_MS,
            Stage::PollSleep { started_at, issued_at } => started_at <= issued_at,
            _ => true,
        }
    }

    /// Whether each event of `events` comes at a clock reading that can
    /// follow the action awaited when it comes.
    pub open spec fn honest_run(self, events: Seq<(TerminationEvent, u64)>) -> bool
        decreases events.len(),
    {
        events.len() > 0 ==> {
            &&& self.honest_run(events.drop_last())
            &&& self.run(events.drop_last()).0.honest(events.last().1)
        }
    }

    /// A bound on the milliseconds of sleep still to be asked for, while
    /// the clock is honest.
    pub open spec fn sleep_left(self) -> int {
        match self.stage {
            Stage::Request { index } => match self.platform {
                Platform::Windows => PROCESS_WAIT_TIMEOUT_MS as int,
                _ => GRACEFUL_SHUTDOWN_WAIT_MS + PROCESS_WAIT_TIMEOUT_MS,
            },
            Stage::GraceSleep => PROCESS_WAIT_TIMEOUT_MS as int,
            Stage::GraceCheck => PROCESS_WAIT_TIMEOUT_MS as int,
            Stage::EarlyKill => PROCESS_WAIT_TIMEOUT_MS as int,
            Stage::PollCheck { started_at, issued_at } => POLL_INTERVAL_MS * pauses_left(
                elapsed(started_at, issued_at) as int,
            ),
            Stage::PollSleep { started_at, issued_at } => POLL_INTERVAL_MS * pauses_left(
                elapsed(started_at, issued_at) + POLL_INTERVAL_MS,
            ),
            _ => 0,
        }
    }

    /// A bound on the actions still to come, `Finished` included, while
    /// the clock is honest.
    pub open spec fn actions_left(self) -> int {
        match self.stage {
            Stage::Request { index } => 46 + self.requests().len() - index,
            Stage::GraceSleep => 46,
            Stage::GraceCheck => 45,
            Stage::EarlyKill => 44,
            Stage::PollCheck { started_at, issued_at } => 3 + 2 * pauses_left(
                elapsed(started_at, issued_at) as int,
            ),
            Stage::PollSleep { started_at, issued_at } => 4 + 2 * pauses_left(
                elapsed(started_at, issued_at) + POLL_INTERVAL_MS,
            ),
            Stage::FinalKill => 2,
            Stage::Reaping => 1,
            Stage::Done => 0,
        }
    }
}

/// The process to signal, if `pid` names a single process.
pub fn signal_target_of(pid: u32) -> (target: Option<i32>)
    ensures
        target == signal_target(pid),
{
    if 0 < pid && pid <= 0x7FFF_FFFF {
        Some(pid as i32)
    } else {
        None
    }
}

fn hidden_kill_command(args: Vec<String>) -> (command: KillCommand)
    ensures
        command@ == hidden_kill(args.deep_view()),
{
    KillCommand {
        program: String::from_str("taskkill"),
        args,
        stdin: StreamMode::Null,
        stdout: StreamMode::Null,
        stderr: StreamMode::Null,
        hide_window: true,
    }
}

/// The run of the kill tool that performs `action`, if it is one that
/// the kill tool performs.
pub fn kill_command(action: TerminationAction) -> (command: Option<KillCommand>)
    ensures
        match command {
            Some(command) => Some(command@) == kill_command_spec(action),
            None => kill_command_spec(action) is None,
        },
{
    match action {
        TerminationAction::KillTree { pid } => {
            let mut args: Vec<String> = Vec::new();
            args.push(String::from_str("/F"));
            args.push(String::from_str("/T"));
            args.push(String::from_str("/PID"));
            args.push(decimal_string(pid as u64));
            assert(args.deep_view() =~= tree_kill_arguments(pid));
            Some(hidden_kill_command(args))
        },
        TerminationAction::KillImage => {
            let mut args: Vec<String> = Vec::new();
            args.push(String::from_str("/F"));
            args.push(String::from_str("/IM"));
            args.push(String::from_str("qbit-manage-windows-amd64.exe"));
            assert(args.deep_view() =~= image_kill_arguments());
            Some(hidden_kill_command(args))
        },
        _ => None,
    }
}

/// The requests that open the termination of `record` on `platform`.
pub fn termination_request_list(record: ProcessRecord, platform: Platform) -> (requests: Vec<
    TerminationAction,
>)
    ensures
        requests@ == termination_requests(record, platform),
{
    let mut requests: Vec<TerminationAction> = Vec::new();
    match platform {
        Platform::Windows => match record.job {
            Some(job) => {
                requests.push(TerminationAction::TerminateJob { job });
            },
            None => {
                requests.push(TerminationAction::KillTree { pid: record.pid });
                requests.push(TerminationAction::KillImage);
            },
        },
        _ => match signal_target_of(record.pid) {
            Some(target) => {
                requests.push(TerminationAction::SendTerminate { target });
            },
            None => {},
        },
    }
    match record.mode {
        SupervisionMode::Console => {
            requests.push(TerminationAction::ReleaseConsole);
        },
        SupervisionMode::Pipes => {},
    }
    assert(requests@ =~= termination_requests(record, platform));
    requests
}

impl Termination {
    fn poll_from(&mut self, started_at: u64, now_ms: u64) -> (action: TerminationAction)
        ensures
            (*final(self), action) == old(self).poll(started_at, now_ms),
    {
        if elapsed_ms(started_at, now_ms) < PROCESS_WAIT_TIMEOUT_MS {
            self.stage = Stage::PollCheck { started_at, issued_at: now_ms };
            TerminationAction::QueryLiveness
        } else {
            self.stage = Stage::FinalKill;
            TerminationAction::ForceKill
        }
    }

    fn wait_after_requests(&mut self, now_ms: u64) -> (action: TerminationAction)
        ensures
            (*final(self), action) == old(self).after_requests(now_ms),
    {
        match self.platform {
            Platform::Windows => self.poll_from(now_ms, now_ms),
            _ => {
                self.stage = Stage::GraceSleep;
                TerminationAction::Sleep { ms: GRACEFUL_SHUTDOWN_WAIT_MS }
            },
        }
    }

    /// Begins the termination of `record` on `platform` at the time
    /// `now_ms`, and hands out its first action.
    pub fn begin(record: ProcessRecord, platform: Platform, now_ms: u64) -> (started: (
        Termination,
        TerminationAction,
    ))
        ensures
            started == Termination::begin_spec(record, platform, now_ms),
            started.0.well_formed(),
            started.0.actions_left() < MAX_TERMINATION_ACTIONS,
            sleep_of(started.1) + started.0.sleep_left() <= MAX_TERMINATION_SLEEP_MS,
    {
        let mut t = Termination { record, platform, stage: Stage::Request { index: 0 } };
        let requests = termination_request_list(record, platform);
        if requests.len() > 0 {
            (t, requests[0])
        } else {
            let action = t.wait_after_requests(now_ms);
            (t, action)
        }
    }

    /// Takes the outcome of the action handed out last, reported at the
    /// time `now_ms`, and hands out the next action.
    pub fn advance(&mut self, event: TerminationEvent, now_ms: u64) -> (action: TerminationAction)
        ensures
            (*final(self), action) == old(self).next(event, now_ms),
    {
        match self.stage {
            Stage::Request { index } => {
                let requests = termination_request_list(self.record, self.platform);
                if index < requests.len() && index + 1 < requests.len() {
                    self.stage = Stage::Request { index: index + 1 };
                    requests[index + 1]
                } else {
                    self.wait_after_requests(now_ms)
                }
            },
            Stage::GraceSleep => {
                self.stage = Stage::GraceCheck;
                TerminationAction::QueryLiveness
            },
            Stage::GraceCheck => match event {
                TerminationEvent::Observed(Liveness::Exited) => self.poll_from(now_ms, now_ms),
                _ => {
                    self.stage = Stage::EarlyKill;
                    TerminationAction::ForceKill
                },
            },
            Stage::EarlyKill => self.poll_from(now_ms, now_ms),
            Stage::PollCheck { started_at, issued_at } => match event {
                TerminationEvent::Observed(Liveness::Running) => {
                    self.stage = Stage::PollSleep { started_at, issued_at: now_ms };
                    TerminationAction::Sleep { ms: POLL_INTERVAL_MS }
                },
                _ => {
                    self.stage = Stage::FinalKill;
                    TerminationAction::ForceKill
                },
            },
            Stage::PollSleep { started_at, issued_at } => self.poll_from(started_at, now_ms),
            Stage::FinalKill => {
                self.stage = Stage::Reaping;
                TerminationAction::Reap
            },
            Stage::Reaping => {
                self.stage = Stage::Done;
                TerminationAction::Finished
            },
            Stage::Done => TerminationAction::Finished,
        }
    }

    /// Whether `Finished` was handed out.
    pub fn is_finished(&self) -> (done: bool)
        ensures
            done == (self.stage == Stage::Done),
    {
        match self.stage {
            Stage::Done => true,
            _ => false,
        }
    }
}

/// The milliseconds of sleep that an action asks for.
pub open spec fn sleep_of(action: TerminationAction) -> int {
    match action {
        TerminationAction::Sleep { ms } => ms as int,
        _ => 0,
    }
}

/// The milliseconds of sleep that a row of actions asks for in all.
pub open spec fn total_sleep(actions: Seq<TerminationAction>) -> int
    decreases actions.len(),
{
    if actions.len() == 0 {
        0
    } else {
        total_sleep(actions.drop_last()) + sleep_of(actions.last())
    }
}

/// Whether what `actions` holds from `from` on is a proper close: the
/// final kill, the final wait, and then nothing but `Finished`.
pub open spec fn closes_at(actions: Seq<TerminationAction>, from: int) -> bool {
    &&& 0 <= from
    &&& from + 2 <= actions.len()
    &&& actions[from] == TerminationAction::ForceKill
    &&& actions[from + 1] == TerminationAction::Reap
    &&& forall|k: int| from + 2 <= k < actions.len() ==> actions[k] == TerminationAction::Finished
}

/// Whether `actions` holds no `Finished` before the position `until`.
pub open spec fn unfinished_before(actions: Seq<TerminationAction>, until: int) -> bool {
    forall|k: int| 0 <= k < until && k < actions.len() ==> actions[k] != TerminationAction::Finished
}

/// Every termination request asks the operating system to end the child or
/// to release its console: none kills through the child's handle, waits, or
/// ends the sequence.
pub proof fn lemma_requests_only_request(record: ProcessRecord, platform: Platform, i: int)
    ensures
        termination_requests(record, platform).len() <= 3,
        0 <= i < termination_requests(record, platform).len() ==> {
            let request = termination_requests(record, platform)[i];
            &&& request != TerminationAction::Finished
            &&& request != TerminationAction::ForceKill
            &&& request != TerminationAction::Reap
            &&& request != TerminationAction::QueryLiveness
            &&& !(request is Sleep)
        },
{
}

/// Each step of a termination brings it nearer its end: while the clock is
/// honest, the bound on the actions still to come falls with every action
/// handed out, and a state that can be reached leads to one that can.
pub proof fn lemma_next_nears_the_end(t: Termination, event: TerminationEvent, now: u64)
    requires
        t.well_formed(),
        t.honest(now),
    ensures
        t.next(event, now).0.well_formed(),
        0 <= t.next(event, now).0.actions_left(),
        t.stage != Stage::Done ==> t.next(event, now).0.actions_left() < t.actions_left(),
        t.stage == Stage::Done ==> t.next(event, now).0 == t,
        t.actions_left() < MAX_TERMINATION_ACTIONS,
        0 <= t.next(event, now).0.sleep_left(),
        sleep_of(t.next(event, now).1) + t.next(event, now).0.sleep_left() <= t.sleep_left(),
        t.sleep_left() <= MAX_TERMINATION_SLEEP_MS,
{
    lemma_requests_only_request(t.record, t.platform, 0);
    match t.stage {
        Stage::Request { index } => {
            lemma_requests_only_request(t.record, t.platform, index + 1);
        },
        _ => {},
    }
}

/// A termination ends: after as many events as the bound on its actions
/// says, reported by an honest clock, `Finished` has been handed out.
pub proof fn lemma_termination_ends(t: Termination, events: Seq<(TerminationEvent, u64)>)
    requires
        t.well_formed(),
        t.honest_run(events),
        events.len() >= t.actions_left(),
    ensures
        t.run(events).0.stage == Stage::Done,
{
    lemma_run_nears_the_end(t, events);
}

/// The wall-clock cost of a termination is bounded: while the clock is
/// honest, the sleeps that it asks for from its first action on add up to no
/// more than the grace period and the time the poll may take.
pub proof fn lemma_sleep_is_bounded(
    record: ProcessRecord,
    platform: Platform,
    now: u64,
    events: Seq<(TerminationEvent, u64)>,
)
    requires
        Termination::begin_spec(record, platform, now).0.honest_run(events),
    ensures
        ({
            let (begun, first) = Termination::begin_spec(record, platform, now);
            sleep_of(first) + total_sleep(begun.run(events).1) <= MAX_TERMINATION_SLEEP_MS
        }),
{
    let (begun, first) = Termination::begin_spec(record, platform, now);
    lemma_requests_only_request(record, platform, 0);
    lemma_run_nears_the_end(begun, events);
}

proof fn lemma_run_nears_the_end(t: Termination, events: Seq<(TerminationEvent, u64)>)
    requires
        t.well_formed(),
        t.honest_run(events),
    ensures
        t.run(events).0.well_formed(),
        0 <= t.run(events).0.actions_left(),
        t.run(events).0.stage == Stage::Done || t.run(events).0.actions_left() + events.len()
            <= t.actions_left(),
        0 <= t.run(events).0.sleep_left(),
        total_sleep(t.run(events).1) + t.run(events).0.sleep_left() <= t.sleep_left(),
    decreases events.len(),
{
    if events.len() == 0 {
        lemma_requests_only_request(t.record, t.platform, 0);
    } else {
        lemma_run_nears_the_end(t, events.drop_last());
        let (before, earlier) = t.run(events.drop_last());
        lemma_next_nears_the_end(before, events.last().0, events.last().1);
        let action = before.next(events.last().0, events.last().1).1;
        assert(earlier.push(action).drop_last() == earlier);
    }
}

/// However a termination goes, it closes with the final kill and the final
/// wait: in the actions handed out from its beginning on, nothing comes
/// after the first `Finished` but `Finished`, and directly before it stand
/// `ForceKill` and `Reap`, in that order.
pub proof fn lemma_closes_with_kill_and_reap(
    record: ProcessRecord,
    platform: Platform,
    now: u64,
    events: Seq<(TerminationEvent, u64)>,
)
    ensures
        ({
            let (first_state, first_action) = Termination::begin_spec(record, platform, now);
            let (last_state, later_actions) = first_state.run(events);
            let actions = seq![first_action] + later_actions;
            if last_state.stage == Stage::Done {
                exists|from: int|
                    #[trigger] closes_at(actions, from) && unfinished_before(actions, from + 2)
                        && from + 2 < actions.len()
            } else {
                unfinished_before(actions, actions.len() as int)
            }
        }),
{
    let (first_state, first_action) = Termination::begin_spec(record, platform, now);
    lemma_trace_closes(record, platform, now, events);
    let (last_state, later_actions) = first_state.run(events);
    let actions = seq![first_action] + later_actions;
    if last_state.stage == Stage::Done {
        let from = choose|from: int|
            #[trigger] closes_at(actions, from) && unfinished_before(actions, from + 2) && from + 2
                < actions.len();
        assert(closes_at(actions, from));
    }
}

/// What holds of the actions handed out so far, by the state reached.
spec fn trace_matches(
    t: Termination,
    actions: Seq<TerminationAction>,
    record: ProcessRecord,
    platform: Platform,
) -> bool {
    let n = actions.len() as int;
    &&& t.record == record
    &&& t.platform == platform
    &&& n >= 1
    &&& match t.stage {
        Stage::FinalKill => actions[n - 1] == TerminationAction::ForceKill && unfinished_before(
            actions,
            n,
        ),
        Stage::Reaping => n >= 2 && actions[n - 2] == TerminationAction::ForceKill && actions[n
            - 1] == TerminationAction::Reap && unfinished_before(actions, n),
        Stage::Done => exists|from: int|
            #[trigger] closes_at(actions, from) && unfinished_before(actions, from + 2) && from + 2
                < n,
        _ => unfinished_before(actions, n),
    }
}

proof fn lemma_trace_closes(
    record: ProcessRecord,
    platform: Platform,
    now: u64,
    events: Seq<(TerminationEvent, u64)>,
)
    ensures
        ({
            let (first_state, first_action) = Termination::begin_spec(record, platform, now);
            let (last_state, later_actions) = first_state.run(events);
            trace_matches(last_state, seq![first_action] + later_actions, record, platform)
        }),
    decreases events.len(),
{
    let (first_state, first_action) = Termination::begin_spec(record, platform, now);
    if events.len() == 0 {
        let actions = seq![first_action] + Seq::<TerminationAction>::empty();
        assert(actions[0] == first_action);
        lemma_requests_only_request(record, platform, 0);
    } else {
        lemma_trace_closes(record, platform, now, events.drop_last());
        let (before, earlier) = first_state.run(events.drop_last());
        let (after, action) = before.next(events.last().0, events.last().1);
        let old_actions = seq![first_action] + earlier;
        let actions = seq![first_action] + earlier.push(action);
        let n = old_actions.len() as int;
        assert(actions == old_actions.push(action));
        assert(forall|k: int| 0 <= k < n ==> actions[k] == old_actions[k]);
        assert(actions[n] == action);
        match before.stage {
            Stage::Request { index } => {
                lemma_requests_only_request(record, platform, index + 1);
            },
            Stage::Reaping => {
                assert(closes_at(actions, n - 2));
                assert(unfinished_before(actions, n));
            },
            Stage::Done => {
                let from = choose|from: int|
                    #[trigger] closes_at(old_actions, from) && unfinished_before(
                        old_actions,
                        from + 2,
                    ) && from + 2 < n;
                assert(closes_at(actions, from));
                assert(unfinished_before(actions, from + 2));
            },
            _ => {},
        }
    }
}

} // verus!
