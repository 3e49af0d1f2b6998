use vstd::prelude::*;
use crate::store::{handle_key, incremented, SeriesKey, Metrics, MetricsError};

verus! {

/// Seconds to wait after a failed session before connecting again.
pub const RETRY_DELAY_SECS: u64 = 5;

/// An event of the upstream stream, reduced to what the exporter reads.
pub enum StreamEvent {
    /// A status was posted by `acct`, who has posted `statuses_count` in all.
    Update { acct: String, statuses_count: i64 },
    /// Any other kind of event.
    Other,
}

/// How an update changes the store.
#[derive(Clone, Copy, Debug, PartialEq, Eq, Structural)]
pub enum Mode {
    /// Each update adds one to its author's series.
    Counter,
    /// Each update sets its author's series to the author's status count.
    Gauge,
}

/// Where the consumer stands.
#[derive(Clone, Copy, Debug, PartialEq, Eq, Structural)]
pub enum Phase {
    Connecting,
    Streaming,
    BackingOff,
    /// A session failed and the consumer does not retry.
    Stopped,
}

/// What happened outside since the last action.
pub enum Signal {
    /// The stream was opened.
    Opened,
    /// The stream could not be opened.
    OpenFailed,
    /// The stream delivered an event.
    Received(StreamEvent),
    /// The stream ended or failed.
    Failed,
    /// The backoff delay is over.
    DelayElapsed,
}

/// What the driver is to do next.
#[derive(Clone, Copy, Debug, PartialEq, Eq, Structural)]
pub enum Action {
    /// Open the stream.
    Connect,
    /// Wait for the next event.
    AwaitEvent,
    /// Wait this many seconds, then report `DelayElapsed`.
    Wait(u64),
    /// End the process with an error.
    Stop,
    /// Nothing: the signal was not expected in this phase.
    Ignore,
}

/// The store after one event: updates count or set their author's series, and
/// every other event leaves it as it was.
pub open spec fn event_effect(
    m: Map<SeriesKey, int>,
    ev: StreamEvent,
    mode: Mode,
    fold_case: bool,
    default_domain: Seq<char>,
) -> Map<SeriesKey, int> {
    match ev {
        StreamEvent::Update { acct, statuses_count } => {
            let k = handle_key(acct@, fold_case, default_domain);
            match mode {
                Mode::Counter => incremented(m, k),
                Mode::Gauge => m.insert(k, statuses_count as int),
            }
        },
        StreamEvent::Other => m,
    }
}

/// The store after a run of events, in order.
pub open spec fn replay(
    m: Map<SeriesKey, int>,
    evs: Seq<StreamEvent>,
    mode: Mode,
    fold_case: bool,
    default_domain: Seq<char>,
) -> Map<SeriesKey, int>
    decreases evs.len(),
{
    if evs.len() == 0 {
        m
    } else {
        event_effect(replay(m, evs.drop_last(), mode, fold_case, default_domain), evs.last(), mode, fold_case, default_domain)
    }
}

/// Where a failed session leads, and what is done then.
pub open spec fn after_failure(retry: bool) -> (Phase, Action) {
    if retry {
        (Phase::BackingOff, Action::Wait(RETRY_DELAY_SECS))
    } else {
        (Phase::Stopped, Action::Stop)
    }
}

/// The transition on every signal but a received event while streaming.
pub open spec fn transition(phase: Phase, sig: Signal, retry: bool) -> (Phase, Action) {
    match (phase, sig) {
        (Phase::Stopped, _) => (Phase::Stopped, Action::Stop),
        (Phase::Connecting, Signal::Opened) => (Phase::Streaming, Action::AwaitEvent),
        (Phase::Connecting, Signal::OpenFailed) => after_failure(retry),
        (Phase::Streaming, Signal::Failed) => after_failure(retry),
        (Phase::BackingOff, Signal::DelayElapsed) => (Phase::Connecting, Action::Connect),
        (p, _) => (p, Action::Ignore),
    }
}

/// Applies one event to the store. Events other than updates change nothing.
pub fn apply_event(metrics: &mut Metrics, ev: StreamEvent, mode: Mode) -> (r: Result<(), MetricsError>)
    requires
        old(metrics).wf(),
    ensures
        final(metrics).wf(),
        final(metrics).default_domain_spec() == old(metrics).default_domain_spec(),
        final(metrics).folds_case() == old(metrics).folds_case(),
        final(metrics).namespace_spec() == old(metrics).namespace_spec(),
        r is Ok,
        final(metrics)@ == event_effect(old(metrics)@, ev, mode, old(metrics).folds_case(), old(metrics).default_domain_spec()),
        ev is Other ==> *final(metrics) == *old(metrics),
{
    match ev {
        StreamEvent::Update { acct, statuses_count } => match mode {
            Mode::Counter => metrics.increment(acct.as_str()),
            Mode::Gauge => metrics.set(acct.as_str(), statuses_count),
        },
        StreamEvent::Other => Ok(()),
    }
}

/// The consumer of the upstream stream: it decides, signal by signal, what to do
/// next, and applies received events to the store.
pub struct Consumer {
    phase: Phase,
    mode: Mode,
    retry: bool,
}

impl Consumer {
    pub closed spec fn phase_spec(&self) -> Phase {
        self.phase
    }

    pub closed spec fn mode_spec(&self) -> Mode {
        self.mode
    }

    pub closed spec fn retries(&self) -> bool {
        self.retry
    }

    /// A consumer about to connect. With `retry`, a failed session is followed by
    /// a fixed delay and a new connection; without it, by a stop.
    pub fn new(mode: Mode, retry: bool) -> (c: Consumer)
        ensures
            c.phase_spec() == Phase::Connecting,
            c.mode_spec() == mode,
            c.retries() == retry,
    {
        Consumer { phase: Phase::Connecting, mode, retry }
    }

    /// The phase the consumer is in.
    pub fn phase(&self) -> (p: Phase)
        ensures
            p == self.phase_spec(),
    {
        self.phase
    }

    /// The first action: open the stream.
    pub fn start(&self) -> (a: Action)
        ensures
            self.phase_spec() == Phase::Connecting ==> a == Action::Connect,
            self.phase_spec() != Phase::Connecting ==> a == Action::Ignore,
    {
        match self.phase {
            Phase::Connecting => Action::Connect,
            _ => Action::Ignore,
        }
    }

    /// Takes one signal. An event received while streaming is applied to the
    /// store and streaming goes on; every other signal leaves the store
    /// untouched.
    pub fn on_signal(&mut self, metrics: &mut Metrics, sig: Signal) -> (a: Action)
        requires
            old(metrics).wf(),
        ensures
            final(metrics).wf(),
            final(metrics).default_domain_spec() == old(metrics).default_domain_spec(),
            final(metrics).folds_case() == old(metrics).folds_case(),
            final(metrics).namespace_spec() == old(metrics).namespace_spec(),
            final(self).mode_spec() == old(self).mode_spec(),
            final(self).retries() == old(self).retries(),
            !(old(self).phase_spec() == Phase::Streaming && sig is Received) ==> {
                &&& *final(metrics) == *old(metrics)
                &&& (final(self).phase_spec(), a) == transition(old(self).phase_spec(), sig, old(self).retries())
            },
            old(self).phase_spec() == Phase::Streaming && sig is Received ==> {
                let ev = sig->Received_0;
                let applied = event_effect(old(metrics)@, ev, old(self).mode_spec(), old(metrics).folds_case(), old(metrics).default_domain_spec());
                &&& final(metrics)@ == applied
                &&& ev is Other ==> *final(metrics) == *old(metrics)
                &&& final(self).phase_spec() == Phase::Streaming
                &&& a == Action::AwaitEvent
            },
    {
        let (phase, action) = match (self.phase, sig) {
            (Phase::Stopped, _) => (Phase::Stopped, Action::Stop),
            (Phase::Connecting, Signal::Opened) => (Phase::Streaming, Action::AwaitEvent),
            (Phase::Connecting, Signal::OpenFailed) => self.failure(),
            (Phase::Streaming, Signal::Failed) => self.failure(),
            (Phase::Streaming, Signal::Received(ev)) => match apply_event(metrics, ev, self.mode) {
                Ok(()) => (Phase::Streaming, Action::AwaitEvent),
                Err(_) => self.failure(),
            },
            (Phase::BackingOff, Signal::DelayElapsed) => (Phase::Connecting, Action::Connect),
            (p, _) => (p, Action::Ignore),
        };
        self.phase = phase;
        action
    }

    fn failure(&self) -> (r: (Phase, Action))
        ensures
            r == after_failure(self.retry),
    {
        if self.retry {
            (Phase::BackingOff, Action::Wait(RETRY_DELAY_SECS))
        } else {
            (Phase::Stopped, Action::Stop)
        }
    }
}

} // verus!
