//! The refresh scheduler: the timing state machine of the background task
//! that keeps the cached token fresh.
//!
//! The machine decides; the embedding runtime acts. Each call to
//! [`RefreshScheduler::on_event`] consumes one event — a wait that elapsed,
//! the outcome of a credential exchange, or the shutdown signal — advances
//! the state, writes a freshly fetched token into the cache when there is
//! one, and returns the single action the runtime must perform next: wait
//! (racing the shutdown signal), fetch, or stop. Failed refreshes are
//! retried indefinitely at a short backoff, never surfacing to readers of
//! the cache; the shutdown signal preempts either kind of wait at once.

use vstd::prelude::*;

use crate::errors::FetchError;
use crate::interceptor::FinamSdkInterceptor;

verus! {

/// Delay between scheduled refreshes, in milliseconds: ten minutes,
/// comfortably before typical token expiry.
pub const REFRESH_INTERVAL_MS: u64 = 600000;

/// Delay before retrying after a failed refresh, in milliseconds: failures
/// are retried promptly, not once per refresh period.
pub const RETRY_BACKOFF_MS: u64 = 5000;

/// The two durations that drive the refresh loop, named so that an
/// embedding (or a test) can shrink them.
#[derive(Clone, Copy, Debug, PartialEq, Eq, Structural)]
pub struct RefreshConfig {
    /// Wait between two scheduled refreshes, in milliseconds.
    pub interval_ms: u64,
    /// Wait before retrying a failed refresh, in milliseconds.
    pub backoff_ms: u64,
}

impl Default for RefreshConfig {
    /// The reference durations: a ten-minute interval and a five-second
    /// backoff.
    fn default() -> (c: Self)
        ensures
            c.interval_ms == REFRESH_INTERVAL_MS,
            c.backoff_ms == RETRY_BACKOFF_MS,
    {
        RefreshConfig { interval_ms: REFRESH_INTERVAL_MS, backoff_ms: RETRY_BACKOFF_MS }
    }
}

/// The phases of the background refresh task.
#[derive(Clone, Copy, Debug, PartialEq, Eq, Structural)]
pub enum SchedulerState {
    /// Waiting out the full refresh interval.
    Waiting,
    /// A credential exchange is in flight.
    Refreshing,
    /// A refresh failed; waiting out the short backoff before retrying.
    RetryBackoff,
    /// The shutdown signal was observed; the task is about to exit.
    ShuttingDown,
    /// The task has exited; no further token writes happen.
    Terminated,
}

/// What the runtime reports back to the scheduler.
#[derive(Debug)]
pub enum Event {
    /// The wait the scheduler asked for has elapsed.
    WaitElapsed,
    /// A credential exchange finished and returned this token.
    FetchSucceeded(String),
    /// A credential exchange failed.
    FetchFailed(FetchError),
    /// The shutdown signal arrived.
    ShutdownRequested,
}

/// The ghost counterpart of an [`Event`], with the fetched token as a
/// character sequence.
pub enum EventV {
    /// The wait the scheduler asked for has elapsed.
    WaitElapsed,
    /// A credential exchange finished and returned this token.
    FetchSucceeded(Seq<char>),
    /// A credential exchange failed.
    FetchFailed(FetchError),
    /// The shutdown signal arrived.
    ShutdownRequested,
}

impl View for Event {
    type V = EventV;

    open spec fn view(&self) -> EventV {
        match self {
            Event::WaitElapsed => EventV::WaitElapsed,
            Event::FetchSucceeded(t) => EventV::FetchSucceeded(t@),
            Event::FetchFailed(e) => EventV::FetchFailed(*e),
            Event::ShutdownRequested => EventV::ShutdownRequested,
        }
    }
}

/// What the runtime must do after an event was consumed.
#[derive(Clone, Copy, Debug, PartialEq, Eq, Structural)]
pub enum Action {
    /// Wait this many milliseconds, abandoning the wait at once if the
    /// shutdown signal arrives.
    Sleep(u64),
    /// Perform one credential exchange and report its outcome.
    Fetch,
    /// Exit the background loop.
    Stop,
}

/// The state after one event.
///
/// An exchange that answered with an empty token counts as a failure: an
/// empty token could never be served, so the machine backs off and retries
/// rather than store it.
pub open spec fn next_state(s: SchedulerState, e: EventV) -> SchedulerState {
    match (s, e) {
        (SchedulerState::Waiting, EventV::WaitElapsed) => SchedulerState::Refreshing,
        (SchedulerState::Waiting, EventV::ShutdownRequested) => SchedulerState::ShuttingDown,
        (SchedulerState::Waiting, _) => SchedulerState::Waiting,
        (SchedulerState::Refreshing, EventV::FetchSucceeded(t)) => {
            if t.len() > 0 {
                SchedulerState::Waiting
            } else {
                SchedulerState::RetryBackoff
            }
        },
        (SchedulerState::Refreshing, EventV::FetchFailed(_)) => SchedulerState::RetryBackoff,
        (SchedulerState::Refreshing, EventV::ShutdownRequested) => SchedulerState::ShuttingDown,
        (SchedulerState::Refreshing, EventV::WaitElapsed) => SchedulerState::Refreshing,
        (SchedulerState::RetryBackoff, EventV::WaitElapsed) => SchedulerState::Refreshing,
        (SchedulerState::RetryBackoff, EventV::ShutdownRequested) => SchedulerState::ShuttingDown,
        (SchedulerState::RetryBackoff, _) => SchedulerState::RetryBackoff,
        (SchedulerState::ShuttingDown, _) => SchedulerState::Terminated,
        (SchedulerState::Terminated, _) => SchedulerState::Terminated,
    }
}

/// The stored token after one event: a successful exchange observed while
/// refreshing stores its non-empty token; every other step leaves the
/// token as it was.
pub open spec fn token_after(s: SchedulerState, e: EventV, tok: Seq<char>) -> Seq<char> {
    match (s, e) {
        (SchedulerState::Refreshing, EventV::FetchSucceeded(t)) => {
            if t.len() > 0 {
                t
            } else {
                tok
            }
        },
        _ => tok,
    }
}

/// The action returned with one event: what the runtime does next.
pub open spec fn action_of(s: SchedulerState, e: EventV, c: RefreshConfig) -> Action {
    match (s, e) {
        (SchedulerState::Waiting, EventV::WaitElapsed) => Action::Fetch,
        (SchedulerState::Waiting, EventV::ShutdownRequested) => Action::Stop,
        (SchedulerState::Waiting, _) => Action::Sleep(c.interval_ms),
        (SchedulerState::Refreshing, EventV::FetchSucceeded(t)) => {
            if t.len() > 0 {
                Action::Sleep(c.interval_ms)
            } else {
                Action::Sleep(c.backoff_ms)
            }
        },
        (SchedulerState::Refreshing, EventV::FetchFailed(_)) => Action::Sleep(c.backoff_ms),
        (SchedulerState::Refreshing, EventV::ShutdownRequested) => Action::Stop,
        (SchedulerState::Refreshing, EventV::WaitElapsed) => Action::Fetch,
        (SchedulerState::RetryBackoff, EventV::WaitElapsed) => Action::Fetch,
        (SchedulerState::RetryBackoff, EventV::ShutdownRequested) => Action::Stop,
        (SchedulerState::RetryBackoff, _) => Action::Sleep(c.backoff_ms),
        (SchedulerState::ShuttingDown, _) => Action::Stop,
        (SchedulerState::Terminated, _) => Action::Stop,
    }
}

/// The state after driving the machine from `s` through the events of
/// `evs`, in order.
pub open spec fn run_state(s: SchedulerState, evs: Seq<EventV>) -> SchedulerState
    decreases evs.len(),
{
    if evs.len() == 0 {
        s
    } else {
        run_state(next_state(s, evs[0]), evs.drop_first())
    }
}

/// The stored token after driving the machine from `s`, with token `tok`,
/// through the events of `evs`, in order.
pub open spec fn run_token(s: SchedulerState, tok: Seq<char>, evs: Seq<EventV>) -> Seq<char>
    decreases evs.len(),
{
    if evs.len() == 0 {
        tok
    } else {
        run_token(next_state(s, evs[0]), token_after(s, evs[0], tok), evs.drop_first())
    }
}

/// The actions the machine returns while driven from `s` through the
/// events of `evs`, in order.
pub open spec fn run_actions(s: SchedulerState, evs: Seq<EventV>, c: RefreshConfig) -> Seq<Action>
    decreases evs.len(),
{
    if evs.len() == 0 {
        Seq::empty()
    } else {
        seq![action_of(s, evs[0], c)] + run_actions(next_state(s, evs[0]), evs.drop_first(), c)
    }
}

/// The refresh scheduler: the current phase of the background task and the
/// two durations that drive it.
#[derive(Clone, Copy, Debug)]
pub struct RefreshScheduler {
    /// The phase the background task is in.
    pub state: SchedulerState,
    /// The durations of the two kinds of wait.
    pub config: RefreshConfig,
}

impl RefreshScheduler {
    /// A scheduler as it stands right after the cache was constructed:
    /// waiting out one full interval.
    pub fn new(config: RefreshConfig) -> (s: Self)
        ensures
            s.state == SchedulerState::Waiting,
            s.config == config,
    {
        RefreshScheduler { state: SchedulerState::Waiting, config }
    }

    /// The first action of the background loop: wait out one full
    /// interval, racing the shutdown signal.
    pub fn initial_action(&self) -> (a: Action)
        ensures
            a == Action::Sleep(self.config.interval_ms),
    {
        Action::Sleep(self.config.interval_ms)
    }

    /// Consumes one event: advances the phase, stores a freshly fetched
    /// token into the cache when the event carries one, and returns the
    /// action the runtime must perform next.
    pub fn on_event(&mut self, event: Event, cache: &mut FinamSdkInterceptor) -> (a: Action)
        requires
            old(cache).wf(),
        ensures
            final(self).state == next_state(old(self).state, event@),
            final(self).config == old(self).config,
            final(cache)@ == token_after(old(self).state, event@, old(cache)@),
            final(cache).wf(),
            a == action_of(old(self).state, event@, old(self).config),
    {
        match self.state {
            SchedulerState::Waiting => match event {
                Event::WaitElapsed => {
                    self.state = SchedulerState::Refreshing;
                    Action::Fetch
                },
                Event::ShutdownRequested => {
                    self.state = SchedulerState::ShuttingDown;
                    Action::Stop
                },
                _ => Action::Sleep(self.config.interval_ms),
            },
            SchedulerState::Refreshing => match event {
                Event::FetchSucceeded(t) => {
                    if !t.as_str().is_empty() {
                        cache.store(t);
                        self.state = SchedulerState::Waiting;
                        Action::Sleep(self.config.interval_ms)
                    } else {
                        self.state = SchedulerState::RetryBackoff;
                        Action::Sleep(self.config.backoff_ms)
                    }
                },
                Event::FetchFailed(_) => {
                    self.state = SchedulerState::RetryBackoff;
                    Action::Sleep(self.config.backoff_ms)
                },
                Event::ShutdownRequested => {
                    self.state = SchedulerState::ShuttingDown;
                    Action::Stop
                },
                Event::WaitElapsed => Action::Fetch,
            },
            SchedulerState::RetryBackoff => match event {
                Event::WaitElapsed => {
                    self.state = SchedulerState::Refreshing;
                    Action::Fetch
                },
                Event::ShutdownRequested => {
                    self.state = SchedulerState::ShuttingDown;
                    Action::Stop
                },
                _ => Action::Sleep(self.config.backoff_ms),
            },
            SchedulerState::ShuttingDown => {
                self.state = SchedulerState::Terminated;
                Action::Stop
            },
            SchedulerState::Terminated => Action::Stop,
        }
    }
}

} // verus!
