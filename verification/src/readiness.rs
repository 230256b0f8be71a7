//! Waiting for the server to answer: poll its address at a fixed interval
//! until it answers with a status below 500 or the time is up.
//!
//! A [`ReadinessProbe`] decides; the caller sends the requests and sleeps. A
//! request that fails counts as an answer that is not ready, never as an
//! error.

use crate::clock::{elapsed, elapsed_ms};
use vstd::prelude::*;

verus! {

/// How long the server is given to answer after the first launch.
pub const SERVER_READY_TIMEOUT_SECS: u64 = 20;

/// How long the server is given to answer after a restart.
pub const SERVER_RESTART_TIMEOUT_SECS: u64 = 15;

/// The pause between two requests.
pub const HTTP_POLL_INTERVAL_MS: u64 = 250;

/// One thing for the caller to do.
#[derive(Clone, Copy, PartialEq, Eq, Structural, Debug)]
pub enum ProbeAction {
    /// Send a GET request to the probe's address.
    Get,
    /// Sleep for `ms` milliseconds.
    Sleep { ms: u64 },
    /// Stop: the server is ready, or the time is up.
    Finished { ready: bool },
}

/// What came of the action handed out last.
#[derive(Clone, Copy, PartialEq, Eq, Structural, Debug)]
pub enum ProbeEvent {
    /// It was performed.
    Completed,
    /// The outcome of the request: the status of the answer, or `None`
    /// where the request failed.
    Response { status: Option<u16> },
}

/// The action that was handed out last and whose outcome is awaited.
#[derive(Clone, Copy, PartialEq, Eq, Structural, Debug)]
pub enum ProbeStage {
    /// A request, sent at `issued_at`.
    Requesting { issued_at: u64 },
    /// A pause, begun at `issued_at`.
    Sleeping { issued_at: u64 },
    /// `Finished`.
    Done { ready: bool },
}

/// How the client that sends the requests is set up.
#[derive(Clone, Copy, PartialEq, Eq, Structural, Debug)]
pub struct ClientSettings {
    /// Whether certificates are accepted unchecked.
    pub accept_invalid_certs: bool,
}

/// A wait for readiness, as far as it has got.
#[derive(Debug)]
pub struct ReadinessProbe {
    /// The address that is polled.
    pub url: String,
    /// How long the wait may last, in milliseconds.
    pub timeout_ms: u64,
    /// The clock reading at which it began.
    pub started_at: u64,
    pub stage: ProbeStage,
}

/// The server is ready once it answers with a status below 500.
pub open spec fn is_ready_status(status: u16) -> bool {
    status < 500
}

/// Whether the outcome of a request shows the server ready.
pub open spec fn shows_ready(status: Option<u16>) -> bool {
    match status {
        Some(code) => is_ready_status(code),
        None => false,
    }
}

/// A number of seconds in milliseconds, as far as the clock can count.
pub open spec fn seconds_as_ms(secs: u64) -> u64 {
    if secs * 1000 <= u64::MAX {
        (secs * 1000) as u64
    } else {
        u64::MAX
    }
}

impl ReadinessProbe {
    /// The same wait at another stage.
    pub open spec fn at(self, stage: ProbeStage) -> ReadinessProbe {
        ReadinessProbe {
            url: self.url,
            timeout_ms: self.timeout_ms,
            started_at: self.started_at,
            stage,
        }
    }

    /// Before each request: another one while the time is not up, else
    /// the end, not ready.
    pub open spec fn poll(self, now: u64) -> (ReadinessProbe, ProbeAction) {
        if elapsed(self.started_at, now) < self.timeout_ms {
            (self.at(ProbeStage::Requesting { issued_at: now }), ProbeAction::Get)
        } else {
            (self.at(ProbeStage::Done { ready: false }), ProbeAction::Finished { ready: false })
        }
    }

    /// The first action of a wait of at most `timeout_ms` milliseconds that
    /// begins at `now`. Without a client to send requests with, the wait
    /// ends at once, not ready.
    pub open spec fn begin_spec(url: String, timeout_ms: u64, client: bool, now: u64) -> (
        ReadinessProbe,
        ProbeAction,
    ) {
        let probe = ReadinessProbe {
            url,
            timeout_ms,
            started_at: now,
            stage: ProbeStage::Requesting { issued_at: now },
        };
        if client {
            probe.poll(now)
        } else {
            (probe.at(ProbeStage::Done { ready: false }), ProbeAction::Finished { ready: false })
        }
    }

    /// The state and the action that follow when `event` is reported at the
    /// time `now`.
    pub open spec fn next(self, event: ProbeEvent, now: u64) -> (ReadinessProbe, ProbeAction) {
        match self.stage {
            ProbeStage::Requesting { issued_at } => {
                let ready = match event {
                    ProbeEvent::Response { status } => shows_ready(status),
                    ProbeEvent::Completed => false,
                };
                if ready {
                    (
                        self.at(ProbeStage::Done { ready: true }),
                        ProbeAction::Finished { ready: true },
                    )
                } else {
                    (
                        self.at(ProbeStage::Sleeping { issued_at: now }),
                        ProbeAction::Sleep { ms: HTTP_POLL_INTERVAL_MS },
                    )
                }
            },
            ProbeStage::Sleeping { issued_at } => self.poll(now),
            ProbeStage::Done { ready } => (self, ProbeAction::Finished { ready }),
        }
    }

    /// The state after `events`, each with its clock reading.
    pub open spec fn run(self, events: Seq<(ProbeEvent, u64)>) -> ReadinessProbe
        decreases events.len(),
    {
        if events.len() == 0 {
            self
        } else {
            self.run(events.drop_last()).next(events.last().0, events.last().1).0
        }
    }

    /// Whether a clock reading `now` can follow the awaited action: a pause
    /// lasts at least as long as it was asked to, and the clock does not
    /// go back while a request is answered.
    pub open spec fn honest(self, now: u64) -> bool {
        match self.stage {
            ProbeStage::Requesting { issued_at } => now >= issued_at,
            ProbeStage::Sleeping { issued_at } => now >= issued_at + HTTP_POLL_INTERVAL_MS,
            ProbeStage::Done { ready } => true,
        }
    }

    /// Whether each event of `events` comes at a clock reading that can
    /// follow the action awaited when it comes.
    pub open spec fn honest_run(self, events: Seq<(ProbeEvent, u64)>) -> bool
        decreases events.len(),
    {
        events.len() > 0 ==> {
            &&& self.honest_run(events.drop_last())
            &&& self.run(events.drop_last()).honest(events.last().1)
        }
    }

    /// Whether the state is one that a wait can reach while the clock is
    /// honest.
    pub open spec fn well_formed(self) -> bool {
        match self.stage {
            ProbeStage::Requesting { issued_at } => self.started_at <= issued_at
                < self.started_at + self.timeout_ms,
            ProbeStage::Sleeping { issued_at } => self.started_at <= issued_at,
            ProbeStage::Done { ready } => true,
        }
    }

    /// How many more requests a wait can send that has lasted for `elapsed`
    /// milliseconds, if each pause lasts as long as it was asked to.
    pub open spec fn requests_left(self, elapsed: int) -> int {
        if elapsed >= self.timeout_ms {
            0
        } else {
            (self.timeout_ms - elapsed + HTTP_POLL_INTERVAL_MS - 1) / (HTTP_POLL_INTERVAL_MS as int)
        }
    }

    /// A bound on the actions still to come, `Finished` included, while
    /// the clock is honest.
    pub open spec fn actions_left(self) -> int {
        match self.stage {
            ProbeStage::Requesting { issued_at } => 2 * self.requests_left(
                elapsed(self.started_at, issued_at) as int,
            ),
            ProbeStage::Sleeping { issued_at } => 1 + 2 * self.requests_left(
                elapsed(self.started_at, issued_at) + HTTP_POLL_INTERVAL_MS,
            ),
            ProbeStage::Done { ready } => 0,
        }
    }
}

/// The settings of the client that sends the requests. Certificates are
/// not checked: the server is polled on the machine's own loopback.
pub fn client_settings() -> (settings: ClientSettings)
    ensures
        settings == (ClientSettings { accept_invalid_certs: true }),
{
    ClientSettings { accept_invalid_certs: true }
}

/// Whether an answer with this status shows the server ready.
pub fn status_is_ready(status: u16) -> (ready: bool)
    ensures
        ready == is_ready_status(status),
{
    status < 500
}

/// A number of seconds in milliseconds, as far as the clock can count.
pub fn timeout_ms_of_secs(secs: u64) -> (ms: u64)
    ensures
        ms == seconds_as_ms(secs),
{
    match secs.checked_mul(1000) {
        Some(ms) => ms,
        None => u64::MAX,
    }
}

impl ReadinessProbe {
    fn poll_head(&mut self, now_ms: u64) -> (action: ProbeAction)
        ensures
            (*final(self), action) == old(self).poll(now_ms),
    {
        if elapsed_ms(self.started_at, now_ms) < self.timeout_ms {
            self.stage = ProbeStage::Requesting { issued_at: now_ms };
            ProbeAction::Get
        } else {
            self.stage = ProbeStage::Done { ready: false };
            ProbeAction::Finished { ready: false }
        }
    }

    /// Begins a wait of at most `timeout_ms` milliseconds for the server at
    /// `url`, at the time `now_ms`, and hands out its first action. `client`
    /// says whether there is a client to send requests with.
    pub fn begin(url: String, timeout_ms: u64, client: bool, now_ms: u64) -> (started: (
        ReadinessProbe,
        ProbeAction,
    ))
        ensures
            started == ReadinessProbe::begin_spec(url, timeout_ms, client, now_ms),
            started.0.well_formed(),
    {
        let mut probe = ReadinessProbe {
            url,
            timeout_ms,
            started_at: now_ms,
            stage: ProbeStage::Requesting { issued_at: now_ms },
        };
        if client {
            let action = probe.poll_head(now_ms);
            (probe, action)
        } else {
            probe.stage = ProbeStage::Done { ready: false };
            (probe, ProbeAction::Finished { ready: false })
        }
    }

    /// Takes the outcome of the action handed out last, reported at the
    /// time `now_ms`, and hands out the next action.
    pub fn advance(&mut self, event: ProbeEvent, now_ms: u64) -> (action: ProbeAction)
        ensures
            (*final(self), action) == old(self).next(event, now_ms),
    {
        match self.stage {
            ProbeStage::Requesting { issued_at } => {
                let ready = match event {
                    ProbeEvent::Response { status: Some(code) } => status_is_ready(code),
                    _ => false,
                };
                if ready {
                    self.stage = ProbeStage::Done { ready: true };
                    ProbeAction::Finished { ready: true }
                } else {
                    self.stage = ProbeStage::Sleeping { issued_at: now_ms };
                    ProbeAction::Sleep { ms: HTTP_POLL_INTERVAL_MS }
                }
            },
            ProbeStage::Sleeping { issued_at } => self.poll_head(now_ms),
            ProbeStage::Done { ready } => ProbeAction::Finished { ready },
        }
    }

    /// The address that is polled.
    pub fn url(&self) -> (url: &str)
        ensures
            url@ == self.url@,
    {
        self.url.as_str()
    }
}

/// Each step of a wait brings it nearer its end: while the clock is
/// honest, the bound on the actions still to come falls with every action
/// handed out, and a state that can be reached leads to one that can.
pub proof fn lemma_next_nears_the_end(probe: ReadinessProbe, event: ProbeEvent, now: u64)
    requires
        probe.well_formed(),
        probe.honest(now),
    ensures
        probe.next(event, now).0.well_formed(),
        0 <= probe.next(event, now).0.actions_left(),
        !(probe.stage is Done) ==> probe.next(event, now).0.actions_left() < probe.actions_left(),
        probe.stage is Done ==> probe.next(event, now).0 == probe,
{
}

/// A wait ends by itself: after as many events as the bound on its actions
/// says, reported by an honest clock, `Finished` has been handed out.
pub proof fn lemma_wait_ends(probe: ReadinessProbe, events: Seq<(ProbeEvent, u64)>)
    requires
        probe.well_formed(),
        probe.honest_run(events),
        events.len() >= probe.actions_left(),
    ensures
        probe.run(events).stage is Done,
{
    lemma_run_nears_the_end(probe, events);
}

proof fn lemma_run_nears_the_end(probe: ReadinessProbe, events: Seq<(ProbeEvent, u64)>)
    requires
        probe.well_formed(),
        probe.honest_run(events),
    ensures
        probe.run(events).well_formed(),
        0 <= probe.run(events).actions_left(),
        probe.run(events).stage is Done || probe.run(events).actions_left() + events.len()
            <= probe.actions_left(),
    decreases events.len(),
{
    if events.len() > 0 {
        lemma_run_nears_the_end(probe, events.drop_last());
        lemma_next_nears_the_end(
            probe.run(events.drop_last()),
            events.last().0,
            events.last().1,
        );
    }
}

/// The time of the request of index `k` on the even schedule, on which a
/// request is answered at once and a pause lasts exactly as long as it was
/// asked to.
pub open spec fn poll_instant(started_at: u64, k: nat) -> int {
    started_at + k * HTTP_POLL_INTERVAL_MS
}

/// The probe and its last action after `k` requests in vain on the even
/// schedule, where `answers` gives the outcome of a request by the time at
/// which it is sent.
pub open spec fn after_vain_requests(
    begun: (ReadinessProbe, ProbeAction),
    answers: spec_fn(int) -> Option<u16>,
    k: nat,
) -> (ReadinessProbe, ProbeAction)
    decreases k,
{
    if k == 0 {
        begun
    } else {
        let before = after_vain_requests(begun, answers, (k - 1) as nat).0;
        let sent = poll_instant(before.started_at, (k - 1) as nat);
        let asleep = before.next(ProbeEvent::Response { status: answers(sent) }, sent as u64).0;
        asleep.next(ProbeEvent::Completed, (sent + HTTP_POLL_INTERVAL_MS) as u64)
    }
}

/// While the time is not up and no answer showed the server ready, the
/// probe on the even schedule goes on requesting.
proof fn lemma_vain_requests(
    url: String,
    timeout_ms: u64,
    started_at: u64,
    answers: spec_fn(int) -> Option<u16>,
    k: nat,
)
    requires
        started_at + timeout_ms + HTTP_POLL_INTERVAL_MS <= u64::MAX,
        forall|j: nat| j < k ==> !shows_ready(#[trigger] answers(poll_instant(started_at, j))),
        k == 0 || poll_instant(started_at, (k - 1) as nat) < started_at + timeout_ms,
    ensures
        ({
            let begun = ReadinessProbe::begin_spec(url, timeout_ms, true, started_at);
            let (probe, action) = after_vain_requests(begun, answers, k);
            &&& probe.url == url
            &&& probe.timeout_ms == timeout_ms
            &&& probe.started_at == started_at
            &&& if poll_instant(started_at, k) < started_at + timeout_ms {
                probe.stage == (ProbeStage::Requesting {
                    issued_at: poll_instant(started_at, k) as u64,
                }) && action == ProbeAction::Get
            } else {
                probe.stage == (ProbeStage::Done { ready: false }) && action == (
                ProbeAction::Finished { ready: false })
            }
        }),
    decreases k,
{
    if k > 0 {
        let j = (k - 1) as nat;
        assert(poll_instant(started_at, j) + HTTP_POLL_INTERVAL_MS == poll_instant(started_at, k))
            by (nonlinear_arith)
            requires
                j + 1 == k,
        ;
        if j > 0 {
            assert(poll_instant(started_at, (j - 1) as nat) < poll_instant(started_at, j))
                by (nonlinear_arith)
                requires
                    j >= 1,
            ;
        }
        lemma_vain_requests(url, timeout_ms, started_at, answers, j);
        assert(!shows_ready(answers(poll_instant(started_at, j))));
    }
}

/// Once the server answers, the probe reports it ready within one
/// polling interval. On the even schedule, let the server answer with a
/// status below 500 from the time `ready_from` on and not before, and let
/// the request of index `k` be the first that is sent at or after
/// `ready_from`. If that request is sent before the time is up, then every
/// request before it is followed by a pause, and its answer ends the wait,
/// ready; and unless it is the very first request, it is sent less than one
/// interval after `ready_from`.
pub proof fn lemma_ready_within_one_interval(
    url: String,
    timeout_ms: u64,
    started_at: u64,
    answers: spec_fn(int) -> Option<u16>,
    ready_from: int,
    k: nat,
)
    requires
        started_at + timeout_ms + HTTP_POLL_INTERVAL_MS <= u64::MAX,
        forall|t: int| t < ready_from ==> !shows_ready(#[trigger] answers(t)),
        forall|t: int| ready_from <= t ==> shows_ready(#[trigger] answers(t)),
        ready_from <= poll_instant(started_at, k),
        k == 0 || poll_instant(started_at, (k - 1) as nat) < ready_from,
        poll_instant(started_at, k) < started_at + timeout_ms,
    ensures
        ({
            let begun = ReadinessProbe::begin_spec(url, timeout_ms, true, started_at);
            let (probe, action) = after_vain_requests(begun, answers, k);
            let sent = poll_instant(started_at, k);
            &&& action == ProbeAction::Get
            &&& probe.next(ProbeEvent::Response { status: answers(sent) }, sent as u64).1 == (
            ProbeAction::Finished { ready: true })
        }),
        k == 0 || poll_instant(started_at, k) < ready_from + HTTP_POLL_INTERVAL_MS,
{
    assert forall|j: nat| j < k implies !shows_ready(
        #[trigger] answers(poll_instant(started_at, j)),
    ) by {
        assert(poll_instant(started_at, j) <= poll_instant(started_at, (k - 1) as nat))
            by (nonlinear_arith)
            requires
                j + 1 <= k,
        ;
    }
    if k > 0 {
        assert(poll_instant(started_at, (k - 1) as nat) + HTTP_POLL_INTERVAL_MS == poll_instant(
            started_at,
            k,
        )) by (nonlinear_arith)
            requires
                k >= 1,
        ;
    }
    lemma_vain_requests(url, timeout_ms, started_at, answers, k);
}

/// A server that does not answer before the time is up is reported not
/// ready, less than one polling interval after the time is up: on the even
/// schedule, if no request sent before the time is up is answered with a
/// status below 500, and the instant of index `k` is the first at or after
/// the timeout, then the probe requests `k` times and then ends the wait,
/// not ready.
pub proof fn lemma_not_ready_after_timeout(
    url: String,
    timeout_ms: u64,
    started_at: u64,
    answers: spec_fn(int) -> Option<u16>,
    k: nat,
)
    requires
        started_at + timeout_ms + HTTP_POLL_INTERVAL_MS <= u64::MAX,
        forall|t: int| t < started_at + timeout_ms ==> !shows_ready(#[trigger] answers(t)),
        poll_instant(started_at, k) >= started_at + timeout_ms,
        k == 0 || poll_instant(started_at, (k - 1) as nat) < started_at + timeout_ms,
    ensures
        ({
            let begun = ReadinessProbe::begin_spec(url, timeout_ms, true, started_at);
            after_vain_requests(begun, answers, k).1 == (ProbeAction::Finished { ready: false })
        }),
        forall|j: nat|
            j < k ==> (#[trigger] after_vain_requests(
                ReadinessProbe::begin_spec(url, timeout_ms, true, started_at),
                answers,
                j,
            )).1 == ProbeAction::Get,
        poll_instant(started_at, k) < started_at + timeout_ms + HTTP_POLL_INTERVAL_MS,
{
    assert forall|j: nat| j < k implies poll_instant(started_at, j) < started_at + timeout_ms by {
        assert(poll_instant(started_at, j) <= poll_instant(started_at, (k - 1) as nat))
            by (nonlinear_arith)
            requires
                j + 1 <= k,
        ;
    }
    assert forall|j: nat| j < k implies !shows_ready(
        #[trigger] answers(poll_instant(started_at, j)),
    ) by {
        assert(poll_instant(started_at, j) < started_at + timeout_ms);
    }
    lemma_vain_requests(url, timeout_ms, started_at, answers, k);
    assert forall|j: nat| j < k implies (#[trigger] after_vain_requests(
        ReadinessProbe::begin_spec(url, timeout_ms, true, started_at),
        answers,
        j,
    )).1 == ProbeAction::Get by {
        assert(poll_instant(started_at, j) < started_at + timeout_ms);
        if j > 0 {
            assert(poll_instant(started_at, (j - 1) as nat) < poll_instant(started_at, j))
                by (nonlinear_arith)
                requires
                    j >= 1,
            ;
        }
        lemma_vain_requests(url, timeout_ms, started_at, answers, j);
    }
    if k > 0 {
        assert(poll_instant(started_at, (k - 1) as nat) + HTTP_POLL_INTERVAL_MS == poll_instant(
            started_at,
            k,
        )) by (nonlinear_arith)
            requires
                k >= 1,
        ;
    }
}

} // verus!
