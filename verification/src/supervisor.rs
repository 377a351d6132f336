//! The connection-lifecycle supervisor.
//!
//! The surrounding process runs one cycle at a time: bind the UDP socket,
//! connect to the broker (declaring the exchange if one is named), set
//! readiness, and run the forwarding loop until it fails. Each cycle ends in
//! one observable outcome, a [`CycleEvent`]. The supervisor turns that
//! outcome into its next state (readiness flag, retry counter) and an
//! [`Action`] telling the process what to do next: run the forwarding loop,
//! sleep and retry, exit cleanly, or crash.

use vstd::prelude::*;

use crate::backoff::{backoff_delay_ms, backoff_spec};
use crate::settings::Settings;

verus! {

/// The outcome of one connect-and-run cycle, as observed by the process.
#[derive(Clone, Copy, PartialEq, Eq, Structural, Debug)]
pub enum CycleEvent {
    /// Binding the UDP socket failed: a configuration error, fatal.
    BindFailed,
    /// Connecting to the broker (or declaring the exchange) failed with an
    /// I/O-level fault: transient, retryable.
    ConnectFailedIo,
    /// Connecting to the broker (or declaring the exchange) failed with any
    /// other fault (protocol violation, auth failure, incompatible exchange):
    /// fatal.
    ConnectFailedOther,
    /// Socket bound, broker connected, exchange declared where named.
    Connected,
    /// The forwarding loop returned an error (receive or publish failure):
    /// transient, retryable.
    LoopFailed,
}

/// What the process must do after the supervisor has absorbed a cycle event.
#[derive(Clone, Copy, PartialEq, Eq, Structural, Debug)]
pub enum Action {
    /// Abort the process with a diagnostic: a fatal condition, never retried.
    Crash,
    /// The connection is up: run the forwarding loop until it fails.
    RunLoop,
    /// Reconnecting is disabled: let the process exit normally.
    ExitSuccess,
    /// Sleep `delay_ms` milliseconds, then start the next cycle from scratch.
    Retry { delay_ms: u64 },
}

/// A transient (retryable) outcome.
pub open spec fn transient(e: CycleEvent) -> bool {
    e is ConnectFailedIo || e is LoopFailed
}

/// A fatal outcome: the process aborts, nothing is retried.
pub open spec fn fatal(e: CycleEvent) -> bool {
    e is BindFailed || e is ConnectFailedOther
}

/// Supervisor state: the configuration it decides by, the advisory readiness
/// flag, and the retry counter, which only ever grows for the life of the
/// process.
pub struct Supervisor {
    /// If true, a transient failure stops the cycle instead of retrying.
    pub no_reconnect: bool,
    /// Ceiling, in milliseconds, on the backoff delay.
    pub delay_limit_ms: u64,
    /// Advisory readiness flag exposed through the probe.
    pub ready: bool,
    /// Number of failed cycles so far; never reset, not even by a
    /// successful reconnect.
    pub retries: u64,
}

/// The supervisor's transition function: the state after absorbing `e`, and
/// the action the process must take.
pub open spec fn step_spec(s: Supervisor, e: CycleEvent) -> (Supervisor, Action) {
    match e {
        CycleEvent::Connected => (
            Supervisor { ready: true, ..s },
            Action::RunLoop,
        ),
        CycleEvent::BindFailed | CycleEvent::ConnectFailedOther => (s, Action::Crash),
        CycleEvent::ConnectFailedIo | CycleEvent::LoopFailed => {
            if s.no_reconnect {
                (Supervisor { ready: false, ..s }, Action::ExitSuccess)
            } else {
                (
                    Supervisor { ready: false, retries: (s.retries + 1) as u64, ..s },
                    Action::Retry {
                        delay_ms: backoff_spec(
                            s.retries as nat,
                            s.delay_limit_ms as nat,
                        ) as u64,
                    },
                )
            }
        },
    }
}

/// The state after absorbing a whole sequence of cycle outcomes, first one
/// first.
pub open spec fn run_spec(s: Supervisor, events: Seq<CycleEvent>) -> Supervisor
    decreases events.len(),
{
    if events.len() == 0 {
        s
    } else {
        run_spec(step_spec(s, events.first()).0, events.drop_first())
    }
}

/// How many of the outcomes in `events` are transient failures.
pub open spec fn count_transient(events: Seq<CycleEvent>) -> nat
    decreases events.len(),
{
    if events.len() == 0 {
        0
    } else {
        (if transient(events.first()) {
            1nat
        } else {
            0nat
        }) + count_transient(events.drop_first())
    }
}

/// Absorbing one more outcome after a sequence is one more step.
pub proof fn lemma_run_snoc(s: Supervisor, events: Seq<CycleEvent>, e: CycleEvent)
    ensures
        run_spec(s, events.push(e)) == step_spec(run_spec(s, events), e).0,
    decreases events.len(),
{
    let pe = events.push(e);
    if events.len() == 0 {
        assert(pe.first() == e);
        assert(pe.drop_first() =~= Seq::<CycleEvent>::empty());
        assert(run_spec(s, pe) == run_spec(step_spec(s, e).0, pe.drop_first()));
        assert(run_spec(step_spec(s, e).0, pe.drop_first()) == step_spec(s, e).0);
        assert(run_spec(s, events) == s);
    } else {
        assert(pe.first() == events.first());
        assert(pe.drop_first() =~= events.drop_first().push(e));
        lemma_run_snoc(step_spec(s, events.first()).0, events.drop_first(), e);
        assert(run_spec(s, pe) == run_spec(step_spec(s, events.first()).0, pe.drop_first()));
        assert(run_spec(s, events) == run_spec(step_spec(s, events.first()).0, events.drop_first()));
    }
}

/// Readiness tracks the last connection outcome. Starting not ready, after
/// any sequence of non-fatal cycle outcomes the supervisor is ready exactly
/// when the most recent outcome was a successful connect: false before the
/// first connect, true immediately after a connect, false immediately on a
/// transient failure, and true again after the next successful reconnect.
pub proof fn lemma_readiness_tracks_connection(s: Supervisor, events: Seq<CycleEvent>)
    requires
        !s.ready,
        forall|i: int| 0 <= i < events.len() ==> !fatal(#[trigger] events[i]),
    ensures
        run_spec(s, events).ready == (events.len() > 0 && events.last() is Connected),
{
    if events.len() > 0 {
        let prefix = events.drop_last();
        let e = events.last();
        assert(events =~= prefix.push(e));
        lemma_run_snoc(s, prefix, e);
        assert(!fatal(e));
    }
}

/// The retry counter only accumulates. With reconnecting enabled, after any
/// sequence of cycle outcomes the counter has grown by exactly the number of
/// transient failures among them: a successful reconnect in between resets
/// nothing.
pub proof fn lemma_retry_counter_never_reset(s: Supervisor, events: Seq<CycleEvent>)
    requires
        !s.no_reconnect,
        s.retries + count_transient(events) <= u64::MAX,
    ensures
        run_spec(s, events).retries == s.retries + count_transient(events),
        run_spec(s, events).no_reconnect == s.no_reconnect,
        run_spec(s, events).delay_limit_ms == s.delay_limit_ms,
    decreases events.len(),
{
    if events.len() > 0 {
        lemma_retry_counter_never_reset(step_spec(s, events.first()).0, events.drop_first());
    }
}

/// The delay before a retry is the backoff for the current value of the
/// retry counter, and the failure advances the counter by one — so
/// consecutive transient failures are answered with the backoff sequence
/// taken in order, wherever in the process's life they fall.
pub proof fn lemma_retry_delay(s: Supervisor, e: CycleEvent)
    requires
        !s.no_reconnect,
        transient(e),
        s.retries < u64::MAX,
    ensures
        step_spec(s, e).1 == (Action::Retry {
            delay_ms: backoff_spec(s.retries as nat, s.delay_limit_ms as nat) as u64,
        }),
        step_spec(s, e).0.retries == s.retries + 1,
{
}

/// The backoff sequence as a whole: with reconnecting enabled, after any
/// earlier outcomes whatsoever, the next transient failure is answered with
/// the backoff for the total number of transient failures so far — the
/// delays follow 100ms, 200ms, 400ms, ... up to the ceiling, and successful
/// reconnects in between never restart the sequence.
pub proof fn lemma_delay_follows_failure_count(
    s: Supervisor,
    events: Seq<CycleEvent>,
    e: CycleEvent,
)
    requires
        !s.no_reconnect,
        transient(e),
        s.retries + count_transient(events) < u64::MAX,
    ensures
        step_spec(run_spec(s, events), e).1 == (Action::Retry {
            delay_ms: backoff_spec(
                (s.retries + count_transient(events)) as nat,
                s.delay_limit_ms as nat,
            ) as u64,
        }),
{
    lemma_retry_counter_never_reset(s, events);
    lemma_retry_delay(run_spec(s, events), e);
}

/// A successful connect leaves the retry counter untouched: the backoff
/// sequence continues where it left off rather than restarting.
pub proof fn lemma_success_preserves_retries(s: Supervisor)
    ensures
        step_spec(s, CycleEvent::Connected).0.retries == s.retries,
{
}

/// With reconnecting disabled, one transient failure ends the cycle: the
/// decision is a clean exit, and no outcome whatsoever is answered with a
/// retry.
pub proof fn lemma_no_reconnect_stops(s: Supervisor, e: CycleEvent)
    requires
        s.no_reconnect,
    ensures
        transient(e) ==> step_spec(s, e).1 is ExitSuccess,
        !(step_spec(s, e).1 is Retry),
{
}

impl Supervisor {
    /// A fresh supervisor: not ready, no failures yet.
    pub fn new(settings: &Settings) -> (s: Supervisor)
        ensures
            s.ready == false,
            s.retries == 0,
            s.no_reconnect == settings.no_reconnect,
            s.delay_limit_ms == settings.reconnect_delay_limit_ms,
    {
        Supervisor {
            no_reconnect: settings.no_reconnect,
            delay_limit_ms: settings.reconnect_delay_limit_ms,
            ready: false,
            retries: 0,
        }
    }

    /// Absorb the outcome of one cycle and decide what happens next.
    pub fn step(&mut self, e: CycleEvent) -> (a: Action)
        requires
            old(self).retries < u64::MAX,
        ensures
            (*final(self), a) == step_spec(*old(self), e),
    {
        match e {
            CycleEvent::Connected => {
                self.ready = true;
                Action::RunLoop
            },
            CycleEvent::BindFailed | CycleEvent::ConnectFailedOther => Action::Crash,
            CycleEvent::ConnectFailedIo | CycleEvent::LoopFailed => {
                self.ready = false;
                if self.no_reconnect {
                    Action::ExitSuccess
                } else {
                    let delay_ms = backoff_delay_ms(self.retries, self.delay_limit_ms);
                    self.retries = self.retries + 1;
                    Action::Retry { delay_ms }
                }
            },
        }
    }
}

} // verus!
