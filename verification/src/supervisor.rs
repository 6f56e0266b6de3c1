//! The connection supervisor: a pure state machine that keeps one logical
//! subscription alive across transport failures.
//!
//! The machine decides; the caller performs. Each event is fed to `step`
//! together with a caller-chosen jitter, and the returned action says what
//! to do next: open the transport, send the subscribe handshake, wait a
//! backoff delay, close, or surface a fatal error. Transient failure
//! never ends the subscription — only an explicit stop, or a subscribe
//! rejection once the retry budget is spent.
use crate::models::SoqaError;
use vstd::prelude::*;

verus! {

/// Backoff and retry policy for one supervised connection.
#[derive(Clone, Copy, PartialEq, Eq, Structural, Debug)]
pub struct BackoffConfig {
    /// The first backoff wait, in milliseconds.
    pub seed_ms: u64,
    /// The largest backoff wait ever ordered.
    pub cap_ms: u64,
    /// How many subscribe attempts may fail before the subscription is
    /// surfaced as rejected.
    pub retry_budget: u32,
    /// How long `Streaming` must last before the backoff resets to the
    /// seed.
    pub stability_ms: u64,
}

impl BackoffConfig {
    /// A usable policy: at least a millisecond of seed, a cap no smaller,
    /// and room to double under the cap without arithmetic overflow.
    pub open spec fn wf(self) -> bool {
        1 <= self.seed_ms <= self.cap_ms && self.cap_ms <= 0x3fff_ffff_ffff_ffff
    }
}

/// The lifecycle of one supervised connection.
#[derive(Clone, Copy, PartialEq, Eq, Structural, Debug)]
pub enum ConnectionState {
    /// No transport, and none wanted: the terminal state, reached only by
    /// an explicit stop.
    Disconnected,
    /// Opening the transport.
    Connecting,
    /// Transport open, waiting for the venue to acknowledge the subscribe
    /// handshake.
    Subscribing,
    /// Reading frames.
    Streaming,
    /// Waiting out a backoff delay before reconnecting.
    Backoff,
}

/// What the caller observed; the supervisor reacts to nothing else.
#[derive(Clone, Copy, PartialEq, Eq, Structural, Debug)]
pub enum SupervisorEvent {
    StartRequested,
    StopRequested,
    ConnectSucceeded,
    ConnectFailed,
    SubscribeAcked,
    SubscribeTimedOut,
    SubscribeRejected,
    TransportLost,
    StabilityElapsed,
    BackoffElapsed,
}

/// What the caller must do next.
#[derive(Clone, Copy, PartialEq, Eq, Structural, Debug)]
pub enum SupervisorAction {
    /// Open the transport (for the venue that needs it, including its
    /// out-of-band endpoint request, retried under this same policy).
    OpenConnection,
    /// Send the venue's subscribe handshake and arm the acknowledgment
    /// timeout.
    SendSubscribe,
    /// Wait this many milliseconds, then report `BackoffElapsed`.
    WaitBackoff(u64),
    /// Tear the transport down and cancel in-flight waits.
    CloseTransport,
    /// The subscription is over: the retry budget is spent or the venue
    /// rejected it. Not retried further.
    ReportFatal,
    /// Nothing to do.
    NoAction,
}

/// One supervised connection: the state, the next backoff wait, and the
/// remaining subscribe attempts.
#[derive(Clone, Copy, PartialEq, Eq, Structural, Debug)]
pub struct Supervisor {
    pub state: ConnectionState,
    pub delay_ms: u64,
    pub retries_left: u32,
    pub config: BackoffConfig,
}

/// The next backoff wait: doubled, jittered, and capped.
pub open spec fn spec_next_delay(delay: u64, jitter: u64, cap: u64) -> u64 {
    let bumped = 2 * delay + jitter % delay;
    if bumped > cap {
        cap
    } else {
        bumped as u64
    }
}

impl Supervisor {
    pub open spec fn wf(self) -> bool {
        &&& self.config.wf()
        &&& self.config.seed_ms <= self.delay_ms <= self.config.cap_ms
        &&& self.retries_left <= self.config.retry_budget
    }

    /// A fresh supervisor: disconnected, backoff at the seed, the full
    /// retry budget.
    pub fn new(config: BackoffConfig) -> (r: Self)
        requires
            config.wf(),
        ensures
            r.wf(),
            r.state == ConnectionState::Disconnected,
            r.delay_ms == config.seed_ms,
            r.retries_left == config.retry_budget,
            r.config == config,
    {
        Supervisor {
            state: ConnectionState::Disconnected,
            delay_ms: config.seed_ms,
            retries_left: config.retry_budget,
            config,
        }
    }

    /// The whole transition relation, as one function of the old machine,
    /// the event, and the caller's jitter.
    pub open spec fn spec_step(self, event: SupervisorEvent, jitter_ms: u64) -> (
        Supervisor,
        SupervisorAction,
    ) {
        let reset = Supervisor {
            state: ConnectionState::Disconnected,
            delay_ms: self.config.seed_ms,
            retries_left: self.config.retry_budget,
            config: self.config,
        };
        match event {
            // stop cancels whatever wait is pending and always lands in
            // the terminal state
            SupervisorEvent::StopRequested => (reset, SupervisorAction::CloseTransport),
            // start is idempotent: a running machine ignores it
            SupervisorEvent::StartRequested => {
                if self.state == ConnectionState::Disconnected {
                    (
                        Supervisor { state: ConnectionState::Connecting, ..self },
                        SupervisorAction::OpenConnection,
                    )
                } else {
                    (self, SupervisorAction::NoAction)
                }
            },
            SupervisorEvent::ConnectSucceeded => {
                if self.state == ConnectionState::Connecting {
                    (
                        Supervisor { state: ConnectionState::Subscribing, ..self },
                        SupervisorAction::SendSubscribe,
                    )
                } else {
                    (self, SupervisorAction::NoAction)
                }
            },
            SupervisorEvent::ConnectFailed => {
                if self.state == ConnectionState::Connecting {
                    (
                        Supervisor {
                            state: ConnectionState::Backoff,
                            delay_ms: spec_next_delay(
                                self.delay_ms,
                                jitter_ms,
                                self.config.cap_ms,
                            ),
                            ..self
                        },
                        SupervisorAction::WaitBackoff(self.delay_ms),
                    )
                } else {
                    (self, SupervisorAction::NoAction)
                }
            },
            SupervisorEvent::SubscribeAcked => {
                if self.state == ConnectionState::Subscribing {
                    (
                        Supervisor { state: ConnectionState::Streaming, ..self },
                        SupervisorAction::NoAction,
                    )
                } else {
                    (self, SupervisorAction::NoAction)
                }
            },
            SupervisorEvent::SubscribeTimedOut | SupervisorEvent::SubscribeRejected => {
                if self.state == ConnectionState::Subscribing {
                    if self.retries_left == 0 {
                        (reset, SupervisorAction::ReportFatal)
                    } else {
                        (
                            Supervisor {
                                state: ConnectionState::Backoff,
                                delay_ms: spec_next_delay(
                                    self.delay_ms,
                                    jitter_ms,
                                    self.config.cap_ms,
                                ),
                                retries_left: (self.retries_left - 1) as u32,
                                ..self
                            },
                            SupervisorAction::WaitBackoff(self.delay_ms),
                        )
                    }
                } else {
                    (self, SupervisorAction::NoAction)
                }
            },
            SupervisorEvent::TransportLost => {
                if self.state == ConnectionState::Streaming {
                    (
                        Supervisor {
                            state: ConnectionState::Backoff,
                            delay_ms: spec_next_delay(
                                self.delay_ms,
                                jitter_ms,
                                self.config.cap_ms,
                            ),
                            ..self
                        },
                        SupervisorAction::WaitBackoff(self.delay_ms),
                    )
                } else {
                    (self, SupervisorAction::NoAction)
                }
            },
            SupervisorEvent::StabilityElapsed => {
                if self.state == ConnectionState::Streaming {
                    (
                        Supervisor {
                            delay_ms: self.config.seed_ms,
                            retries_left: self.config.retry_budget,
                            ..self
                        },
                        SupervisorAction::NoAction,
                    )
                } else {
                    (self, SupervisorAction::NoAction)
                }
            },
            SupervisorEvent::BackoffElapsed => {
                if self.state == ConnectionState::Backoff {
                    (
                        Supervisor { state: ConnectionState::Connecting, ..self },
                        SupervisorAction::OpenConnection,
                    )
                } else {
                    (self, SupervisorAction::NoAction)
                }
            },
        }
    }

    /// Feeds one event through the machine and says what to do next.
    /// `jitter_ms` is caller-supplied randomness; only its remainder
    /// against the current delay is used, so any value is safe.
    pub fn step(&mut self, event: SupervisorEvent, jitter_ms: u64) -> (action: SupervisorAction)
        requires
            old(self).wf(),
        ensures
            final(self).wf(),
            (*final(self), action) == old(self).spec_step(event, jitter_ms),
    {
        let next_delay: u64 = if self.delay_ms == 0 {
            // unreachable under wf; keeps the arithmetic total
            self.config.seed_ms
        } else {
            let bumped = 2 * self.delay_ms + jitter_ms % self.delay_ms;
            if bumped > self.config.cap_ms {
                self.config.cap_ms
            } else {
                bumped
            }
        };
        match event {
            SupervisorEvent::StopRequested => {
                self.state = ConnectionState::Disconnected;
                self.delay_ms = self.config.seed_ms;
                self.retries_left = self.config.retry_budget;
                SupervisorAction::CloseTransport
            },
            SupervisorEvent::StartRequested => {
                if self.state == ConnectionState::Disconnected {
                    self.state = ConnectionState::Connecting;
                    SupervisorAction::OpenConnection
                } else {
                    SupervisorAction::NoAction
                }
            },
            SupervisorEvent::ConnectSucceeded => {
                if self.state == ConnectionState::Connecting {
                    self.state = ConnectionState::Subscribing;
                    SupervisorAction::SendSubscribe
                } else {
                    SupervisorAction::NoAction
                }
            },
            SupervisorEvent::ConnectFailed => {
                if self.state == ConnectionState::Connecting {
                    let wait = self.delay_ms;
                    self.state = ConnectionState::Backoff;
                    self.delay_ms = next_delay;
                    SupervisorAction::WaitBackoff(wait)
                } else {
                    SupervisorAction::NoAction
                }
            },
            SupervisorEvent::SubscribeAcked => {
                if self.state == ConnectionState::Subscribing {
                    self.state = ConnectionState::Streaming;
                    SupervisorAction::NoAction
                } else {
                    SupervisorAction::NoAction
                }
            },
            SupervisorEvent::SubscribeTimedOut | SupervisorEvent::SubscribeRejected => {
                if self.state == ConnectionState::Subscribing {
                    if self.retries_left == 0 {
                        self.state = ConnectionState::Disconnected;
                        self.delay_ms = self.config.seed_ms;
                        self.retries_left = self.config.retry_budget;
                        SupervisorAction::ReportFatal
                    } else {
                        let wait = self.delay_ms;
                        self.state = ConnectionState::Backoff;
                        self.delay_ms = next_delay;
                        self.retries_left = self.retries_left - 1;
                        SupervisorAction::WaitBackoff(wait)
                    }
                } else {
                    SupervisorAction::NoAction
                }
            },
            SupervisorEvent::TransportLost => {
                if self.state == ConnectionState::Streaming {
                    let wait = self.delay_ms;
                    self.state = ConnectionState::Backoff;
                    self.delay_ms = next_delay;
                    SupervisorAction::WaitBackoff(wait)
                } else {
                    SupervisorAction::NoAction
                }
            },
            SupervisorEvent::StabilityElapsed => {
                if self.state == ConnectionState::Streaming {
                    self.delay_ms = self.config.seed_ms;
                    self.retries_left = self.config.retry_budget;
                    SupervisorAction::NoAction
                } else {
                    SupervisorAction::NoAction
                }
            },
            SupervisorEvent::BackoffElapsed => {
                if self.state == ConnectionState::Backoff {
                    self.state = ConnectionState::Connecting;
                    SupervisorAction::OpenConnection
                } else {
                    SupervisorAction::NoAction
                }
            },
        }
    }

    /// The error surfaced when the retry budget is spent or the venue
    /// rejects the subscription.
    pub fn fatal_error(&self) -> (r: SoqaError)
        ensures
            r is SubscriptionRejected,
    {
        SoqaError::SubscriptionRejected(
            String::from_str("subscribe rejected or retry budget exhausted"),
        )
    }
}

/// Backoff discipline, one step at a time. Across consecutive failures
/// the stored delay never decreases and never passes the cap, every
/// ordered wait is the stored delay and so itself capped, and a stability
/// report during `Streaming` resets the delay to the seed; stepping never
/// breaks well-formedness, so the claim carries over any run of events by
/// induction.
pub proof fn lemma_backoff_discipline(s: Supervisor, event: SupervisorEvent, jitter_ms: u64)
    requires
        s.wf(),
    ensures
        s.spec_step(event, jitter_ms).0.wf(),
        // waits are the current delay, hence within [seed, cap]
        forall|w: u64|
            s.spec_step(event, jitter_ms).1 == SupervisorAction::WaitBackoff(w) ==> w
                == s.delay_ms && s.config.seed_ms <= w <= s.config.cap_ms,
        // failures never shrink the delay
        (event == SupervisorEvent::ConnectFailed || event == SupervisorEvent::TransportLost
            || event == SupervisorEvent::SubscribeTimedOut || event
            == SupervisorEvent::SubscribeRejected) && s.spec_step(event, jitter_ms).0.state
            == ConnectionState::Backoff ==> s.spec_step(event, jitter_ms).0.delay_ms >= s.delay_ms,
        // a stable stream resets the delay to the seed
        event == SupervisorEvent::StabilityElapsed && s.state == ConnectionState::Streaming
            ==> s.spec_step(event, jitter_ms).0.delay_ms == s.config.seed_ms,
        // doubling is genuine below the cap
        (event == SupervisorEvent::ConnectFailed || event == SupervisorEvent::TransportLost)
            && s.state == (if event == SupervisorEvent::ConnectFailed {
            ConnectionState::Connecting
        } else {
            ConnectionState::Streaming
        }) && 2 * s.delay_ms <= s.config.cap_ms ==> s.spec_step(event, jitter_ms).0.delay_ms >= 2
            * s.delay_ms,
{
}

/// An unsubscribe during `Backoff` cancels the pending wait: the machine
/// lands in `Disconnected` and the only action is to close the transport —
/// no connection attempt follows.
pub proof fn lemma_stop_in_backoff_cancels_wait(s: Supervisor, jitter_ms: u64)
    requires
        s.wf(),
        s.state == ConnectionState::Backoff,
    ensures
        s.spec_step(SupervisorEvent::StopRequested, jitter_ms).0.state
            == ConnectionState::Disconnected,
        s.spec_step(SupervisorEvent::StopRequested, jitter_ms).1
            == SupervisorAction::CloseTransport,
{
}

} // verus!
