//! Asking the local resolver as a daemon behind a local endpoint. A session
//! covers one request: it finds the daemon running or starts it, waits until
//! it answers its health probe, asks, and stops what it started. The session
//! decides; its user performs each action and reports what happened.

use crate::geocode_result::{opt_text, GeocodeRecord, GeocodeResult};
use crate::geocoder_runner::{daemon_binary_of, resolve_geocoder_binary_path, Environment};
use crate::local_error::LocalError;
use crate::text::{copy_strings, strip_trailing, without_trailing};
use vstd::pervasive::unreached;
use vstd::prelude::*;

verus! {

/// The pause between two health probes while the daemon starts.
pub const DAEMON_POLL_INTERVAL_MS: u64 = 150;

/// How long a started daemon may take to answer its first health probe.
pub const DAEMON_STARTUP_TIMEOUT_MS: u64 = 5000;

/// A copy of a list of rows.
pub fn copy_results(rows: &[GeocodeResult]) -> (r: Vec<GeocodeResult>)
    ensures
        r.deep_view() == rows.deep_view(),
{
    let mut r: Vec<GeocodeResult> = Vec::new();
    let mut i: usize = 0;
    while i < rows.len()
        invariant
            i <= rows.len(),
            r.len() == i,
            forall|k: int| 0 <= k < i ==> r.deep_view()[k] == rows.deep_view()[k],
        decreases rows.len() - i,
    {
        r.push(rows[i].duplicate());
        i += 1;
    }
    assert(r.deep_view() =~= rows.deep_view());
    r
}

/// The rows or the failure that a stage ended with, as mathematical content.
pub open spec fn outcome_view(outcome: Result<Vec<GeocodeResult>, LocalError>) -> Result<
    Seq<GeocodeRecord>,
    LocalError,
> {
    match outcome {
        Ok(rows) => Ok(rows.deep_view()),
        Err(e) => Err(e),
    }
}

/// A copy of the rows or the failure that a stage ended with.
pub fn copy_outcome(outcome: &Result<Vec<GeocodeResult>, LocalError>) -> (r: Result<
    Vec<GeocodeResult>,
    LocalError,
>)
    ensures
        outcome_view(r) == outcome_view(*outcome),
{
    match outcome {
        Ok(rows) => Ok(copy_results(rows.as_slice())),
        Err(e) => Err(e.duplicate()),
    }
}

/// The address of the resolution endpoint below a base address.
pub open spec fn endpoint_of(base: Seq<char>) -> Seq<char> {
    without_trailing(base, '/') + "/geocode"@
}

/// The address of the resolution endpoint below a base address.
pub fn geocode_endpoint(base_url: &str) -> (r: String)
    ensures
        r@ == endpoint_of(base_url@),
{
    let mut r = strip_trailing(base_url, '/');
    r.append("/geocode");
    r
}

/// Where a session stands. `serve` tells the first launch, with `--serve`,
/// from the second, bare one; `owned` tells a daemon that this session
/// started from one that it found running.
#[derive(Debug, Clone, Copy, PartialEq, Eq, Structural)]
pub enum DaemonPhase {
    /// The first health probe is due.
    Probing,
    /// A launch is due.
    Starting { serve: bool },
    /// A launched daemon is probed until it is ready.
    Waiting { serve: bool },
    /// A launched daemon that never got ready is being stopped.
    Retiring { serve: bool },
    /// The request is due.
    Asking { owned: bool },
    /// The daemon that answered is being stopped.
    Releasing,
    /// The session is over.
    Done,
}

/// What the user of a session reports.
#[derive(Debug, PartialEq, Eq)]
pub enum DaemonEvent {
    /// A health probe ended; `true` when its round trip succeeded.
    Health(bool),
    /// A launch ended; `error` says why no process was started.
    Spawned { error: Option<String> },
    /// The started process was terminated and waited for.
    Stopped,
    /// The request ended with rows, or with the reason why it failed.
    Answer(Result<Vec<GeocodeResult>, String>),
}

/// The mathematical content of a [`DaemonAction`].
pub enum DaemonStep {
    Probe { url: Seq<char>, delay_ms: u64 },
    Spawn { program: Seq<char>, args: Seq<Seq<char>> },
    Stop,
    Query { url: Seq<char>, addresses: Seq<Seq<char>> },
    Done { outcome: Result<Seq<GeocodeRecord>, LocalError> },
}

/// What the user of a session has to do next.
#[derive(Debug, PartialEq, Eq)]
pub enum DaemonAction {
    /// Wait `delay_ms`, then send an empty batch to `url` and report
    /// `Health`.
    Probe { url: String, delay_ms: u64 },
    /// Start `program` with `args`, detached from the standard streams, and
    /// report `Spawned`.
    Spawn { program: String, args: Vec<String> },
    /// Terminate the started process, wait for its exit and report
    /// `Stopped`.
    Stop,
    /// Send `addresses` to `url` and report `Answer`.
    Query { url: String, addresses: Vec<String> },
    /// Nothing: the session is over with `outcome`.
    Done { outcome: Result<Vec<GeocodeResult>, LocalError> },
}

impl View for DaemonAction {
    type V = DaemonStep;

    open spec fn view(&self) -> DaemonStep {
        match self {
            DaemonAction::Probe { url, delay_ms } => DaemonStep::Probe {
                url: url@,
                delay_ms: *delay_ms,
            },
            DaemonAction::Spawn { program, args } => DaemonStep::Spawn {
                program: program@,
                args: args.deep_view(),
            },
            DaemonAction::Stop => DaemonStep::Stop,
            DaemonAction::Query { url, addresses } => DaemonStep::Query {
                url: url@,
                addresses: addresses.deep_view(),
            },
            DaemonAction::Done { outcome } => DaemonStep::Done { outcome: outcome_view(*outcome) },
        }
    }
}

/// The mathematical content of a [`DaemonSession`].
pub struct DaemonModel {
    pub url: Seq<char>,
    pub binary: Result<Seq<char>, LocalError>,
    pub addresses: Seq<Seq<char>>,
    pub phase: DaemonPhase,
    pub waited_ms: u64,
    pub spawned: nat,
    pub stopped: nat,
    pub outcome: Option<Result<Seq<GeocodeRecord>, LocalError>>,
}

impl DaemonModel {
    /// The session before anything was done.
    pub open spec fn initial(
        url: Seq<char>,
        binary: Result<Seq<char>, LocalError>,
        addresses: Seq<Seq<char>>,
    ) -> DaemonModel {
        DaemonModel {
            url,
            binary,
            addresses,
            phase: DaemonPhase::Probing,
            waited_ms: 0,
            spawned: 0,
            stopped: 0,
            outcome: None,
        }
    }

    /// The number of processes that the session started and has not stopped.
    pub open spec fn children(self) -> int {
        self.spawned - self.stopped
    }

    /// What each phase knows: how many processes were started and stopped,
    /// and what is at hand.
    pub open spec fn wf(self) -> bool {
        match self.phase {
            DaemonPhase::Probing => self.spawned == 0 && self.stopped == 0,
            DaemonPhase::Starting { serve } => self.binary is Ok && self.stopped == self.spawned
                && self.spawned == (if serve {
                0nat
            } else {
                1nat
            }),
            DaemonPhase::Waiting { serve } => self.binary is Ok && self.stopped + 1 == self.spawned
                && self.spawned == (if serve {
                1nat
            } else {
                2nat
            }) && self.waited_ms < DAEMON_STARTUP_TIMEOUT_MS,
            DaemonPhase::Retiring { serve } => self.binary is Ok && self.stopped + 1
                == self.spawned && self.spawned == (if serve {
                1nat
            } else {
                2nat
            }),
            DaemonPhase::Asking { owned } => if owned {
                self.stopped + 1 == self.spawned && self.spawned <= 2
            } else {
                self.spawned == 0 && self.stopped == 0
            },
            DaemonPhase::Releasing => self.stopped + 1 == self.spawned && self.spawned <= 2
                && self.outcome is Some,
            DaemonPhase::Done => self.stopped == self.spawned && self.spawned <= 2
                && self.outcome is Some,
        }
    }

    /// What is to be done in this state.
    pub open spec fn action(self) -> DaemonStep
        recommends
            self.wf(),
    {
        match self.phase {
            DaemonPhase::Probing => DaemonStep::Probe { url: self.url, delay_ms: 0 },
            DaemonPhase::Starting { serve } => DaemonStep::Spawn {
                program: self.binary->Ok_0,
                args: if serve {
                    seq!["--serve"@]
                } else {
                    Seq::empty()
                },
            },
            DaemonPhase::Waiting { serve } => DaemonStep::Probe {
                url: self.url,
                delay_ms: if self.waited_ms == 0 {
                    0
                } else {
                    DAEMON_POLL_INTERVAL_MS
                },
            },
            DaemonPhase::Retiring { serve } => DaemonStep::Stop,
            DaemonPhase::Asking { owned } => DaemonStep::Query {
                url: self.url,
                addresses: self.addresses,
            },
            DaemonPhase::Releasing => DaemonStep::Stop,
            DaemonPhase::Done => DaemonStep::Done { outcome: self.outcome->0 },
        }
    }

    /// The session after `event`. An event that the phase does not wait for
    /// changes nothing.
    pub open spec fn next(self, event: DaemonEvent) -> DaemonModel {
        match (self.phase, event) {
            (DaemonPhase::Probing, DaemonEvent::Health(healthy)) => if healthy {
                DaemonModel { phase: DaemonPhase::Asking { owned: false }, ..self }
            } else {
                match self.binary {
                    Ok(_) => DaemonModel { phase: DaemonPhase::Starting { serve: true }, ..self },
                    Err(e) => DaemonModel {
                        phase: DaemonPhase::Done,
                        outcome: Some(Err(e)),
                        ..self
                    },
                }
            },
            (DaemonPhase::Starting { serve }, DaemonEvent::Spawned { error }) => match error {
                None => DaemonModel {
                    phase: DaemonPhase::Waiting { serve },
                    spawned: self.spawned + 1,
                    waited_ms: 0,
                    ..self
                },
                Some(detail) => DaemonModel {
                    phase: DaemonPhase::Done,
                    outcome: Some(Err(LocalError::SpawnFailed { detail })),
                    ..self
                },
            },
            (DaemonPhase::Waiting { serve }, DaemonEvent::Health(healthy)) => if healthy {
                DaemonModel { phase: DaemonPhase::Asking { owned: true }, ..self }
            } else if self.waited_ms + DAEMON_POLL_INTERVAL_MS < DAEMON_STARTUP_TIMEOUT_MS {
                DaemonModel {
                    waited_ms: (self.waited_ms + DAEMON_POLL_INTERVAL_MS) as u64,
                    ..self
                }
            } else {
                DaemonModel { phase: DaemonPhase::Retiring { serve }, ..self }
            },
            (DaemonPhase::Retiring { serve }, DaemonEvent::Stopped) => if serve {
                DaemonModel {
                    phase: DaemonPhase::Starting { serve: false },
                    stopped: self.stopped + 1,
                    ..self
                }
            } else {
                DaemonModel {
                    phase: DaemonPhase::Done,
                    stopped: self.stopped + 1,
                    outcome: Some(Err(LocalError::DaemonStartupTimeout)),
                    ..self
                }
            },
            (DaemonPhase::Asking { owned }, DaemonEvent::Answer(answer)) => DaemonModel {
                phase: if owned {
                    DaemonPhase::Releasing
                } else {
                    DaemonPhase::Done
                },
                outcome: Some(
                    match answer {
                        Ok(rows) => Ok(rows.deep_view()),
                        Err(detail) => Err(LocalError::Transport { detail }),
                    },
                ),
                ..self
            },
            (DaemonPhase::Releasing, DaemonEvent::Stopped) => DaemonModel {
                phase: DaemonPhase::Done,
                stopped: self.stopped + 1,
                ..self
            },
            _ => self,
        }
    }

    /// The session after a sequence of events.
    pub open spec fn after(self, events: Seq<DaemonEvent>) -> DaemonModel
        decreases events.len(),
    {
        if events.len() == 0 {
            self
        } else {
            self.after(events.drop_last()).next(events.last())
        }
    }

    /// The session found the daemon running and has left it alone.
    pub open spec fn uses_running_daemon(self) -> bool {
        self.spawned == 0 && self.stopped == 0 && (self.phase == DaemonPhase::Asking {
            owned: false,
        } || self.phase == DaemonPhase::Done) && (self.phase == DaemonPhase::Done
            ==> self.outcome is Some)
    }
}

/// One request to the daemon, from the first health probe to the end.
pub struct DaemonSession {
    pub url: String,
    pub binary: Result<String, LocalError>,
    pub addresses: Vec<String>,
    pub phase: DaemonPhase,
    pub waited_ms: u64,
    pub spawned: u8,
    pub stopped: u8,
    pub outcome: Option<Result<Vec<GeocodeResult>, LocalError>>,
}

impl View for DaemonSession {
    type V = DaemonModel;

    open spec fn view(&self) -> DaemonModel {
        DaemonModel {
            url: self.url@,
            binary: match self.binary {
                Ok(path) => Ok(path@),
                Err(e) => Err(e),
            },
            addresses: self.addresses.deep_view(),
            phase: self.phase,
            waited_ms: self.waited_ms,
            spawned: self.spawned as nat,
            stopped: self.stopped as nat,
            outcome: match self.outcome {
                Some(outcome) => Some(outcome_view(outcome)),
                None => None,
            },
        }
    }
}

impl DaemonSession {
    /// A session for `addresses` with the daemon at `base_url`. The
    /// executable to start the daemon from, should that be needed, is looked
    /// for at once.
    pub fn start(
        base_url: &str,
        geocoder_bin: &Option<String>,
        env: &Environment,
        addresses: &[String],
    ) -> (session: DaemonSession)
        ensures
            session@ == DaemonModel::initial(
                endpoint_of(base_url@),
                daemon_binary_of(
                    opt_text(*geocoder_bin),
                    env.cwd@,
                    env.host(),
                    env.files.deep_view(),
                ),
                addresses.deep_view(),
            ),
            session@.wf(),
    {
        DaemonSession {
            url: geocode_endpoint(base_url),
            binary: resolve_geocoder_binary_path(geocoder_bin, env),
            addresses: copy_strings(addresses),
            phase: DaemonPhase::Probing,
            waited_ms: 0,
            spawned: 0,
            stopped: 0,
            outcome: None,
        }
    }

    /// Whether the session is over.
    pub fn is_done(&self) -> (r: bool)
        ensures
            r == (self@.phase == DaemonPhase::Done),
    {
        match self.phase {
            DaemonPhase::Done => true,
            _ => false,
        }
    }

    /// What is to be done next.
    pub fn action(&self) -> (r: DaemonAction)
        requires
            self@.wf(),
        ensures
            r@ == self@.action(),
    {
        match self.phase {
            DaemonPhase::Probing => DaemonAction::Probe { url: self.url.clone(), delay_ms: 0 },
            DaemonPhase::Starting { serve } => {
                let mut args: Vec<String> = Vec::new();
                if serve {
                    args.push("--serve".to_owned());
                }
                let program = match &self.binary {
                    Ok(path) => path.clone(),
                    Err(_) => unreached(),
                };
                assert(args.deep_view() =~= (if serve {
                    seq!["--serve"@]
                } else {
                    Seq::<Seq<char>>::empty()
                }));
                DaemonAction::Spawn { program, args }
            },
            DaemonPhase::Waiting { serve } => DaemonAction::Probe {
                url: self.url.clone(),
                delay_ms: if self.waited_ms == 0 {
                    0
                } else {
                    DAEMON_POLL_INTERVAL_MS
                },
            },
            DaemonPhase::Retiring { serve } => DaemonAction::Stop,
            DaemonPhase::Asking { owned } => DaemonAction::Query {
                url: self.url.clone(),
                addresses: copy_strings(self.addresses.as_slice()),
            },
            DaemonPhase::Releasing => DaemonAction::Stop,
            DaemonPhase::Done => match &self.outcome {
                Some(outcome) => DaemonAction::Done { outcome: copy_outcome(outcome) },
                None => unreached(),
            },
        }
    }

    /// Takes note of what happened and moves on.
    pub fn handle(&mut self, event: DaemonEvent)
        requires
            old(self)@.wf(),
        ensures
            final(self)@ == old(self)@.next(event),
            final(self)@.wf(),
    {
        match (self.phase, event) {
            (DaemonPhase::Probing, DaemonEvent::Health(healthy)) => {
                if healthy {
                    self.phase = DaemonPhase::Asking { owned: false };
                } else {
                    match &self.binary {
                        Ok(_) => {
                            self.phase = DaemonPhase::Starting { serve: true };
                        },
                        Err(e) => {
                            self.outcome = Some(Err(e.duplicate()));
                            self.phase = DaemonPhase::Done;
                        },
                    }
                }
            },
            (DaemonPhase::Starting { serve }, DaemonEvent::Spawned { error }) => {
                match error {
                    None => {
                        self.phase = DaemonPhase::Waiting { serve };
                        self.spawned = self.spawned + 1;
                        self.waited_ms = 0;
                    },
                    Some(detail) => {
                        self.outcome = Some(Err(LocalError::SpawnFailed { detail }));
                        self.phase = DaemonPhase::Done;
                    },
                }
            },
            (DaemonPhase::Waiting { serve }, DaemonEvent::Health(healthy)) => {
                if healthy {
                    self.phase = DaemonPhase::Asking { owned: true };
                } else if self.waited_ms + DAEMON_POLL_INTERVAL_MS < DAEMON_STARTUP_TIMEOUT_MS {
                    self.waited_ms = self.waited_ms + DAEMON_POLL_INTERVAL_MS;
                } else {
                    self.phase = DaemonPhase::Retiring { serve };
                }
            },
            (DaemonPhase::Retiring { serve }, DaemonEvent::Stopped) => {
                self.stopped = self.stopped + 1;
                if serve {
                    self.phase = DaemonPhase::Starting { serve: false };
                } else {
                    self.outcome = Some(Err(LocalError::DaemonStartupTimeout));
                    self.phase = DaemonPhase::Done;
                }
            },
            (DaemonPhase::Asking { owned }, DaemonEvent::Answer(answer)) => {
                self.outcome = Some(
                    match answer {
                        Ok(rows) => Ok(rows),
                        Err(detail) => Err(LocalError::Transport { detail }),
                    },
                );
                self.phase = if owned {
                    DaemonPhase::Releasing
                } else {
                    DaemonPhase::Done
                };
            },
            (DaemonPhase::Releasing, DaemonEvent::Stopped) => {
                self.stopped = self.stopped + 1;
                self.phase = DaemonPhase::Done;
            },
            _ => {},
        }
    }
}

/// Every event leaves a session in order.
pub proof fn law_daemon_step_keeps_order(s: DaemonModel, event: DaemonEvent)
    requires
        s.wf(),
    ensures
        s.next(event).wf(),
{
}

/// Whatever is reported, in whatever order, a session stays in order; when
/// it is over, every process that it started has been stopped, and before
/// that at most one is running.
pub proof fn law_daemon_stops_what_it_started(s: DaemonModel, events: Seq<DaemonEvent>)
    requires
        s.wf(),
    ensures
        s.after(events).wf(),
        0 <= s.after(events).children() <= 1,
        s.after(events).phase == DaemonPhase::Done ==> s.after(events).children() == 0,
    decreases events.len(),
{
    if events.len() > 0 {
        law_daemon_stops_what_it_started(s, events.drop_last());
        law_daemon_step_keeps_order(s.after(events.drop_last()), events.last());
    }
}

/// A session whose first probe finds the daemon running never starts a
/// process and never stops one, whatever is reported afterwards: the daemon
/// that was found is left running.
pub proof fn law_daemon_found_running_is_left_alone(
    url: Seq<char>,
    binary: Result<Seq<char>, LocalError>,
    addresses: Seq<Seq<char>>,
    events: Seq<DaemonEvent>,
)
    ensures
        ({
            let s = DaemonModel::initial(url, binary, addresses).next(DaemonEvent::Health(true))
                .after(events);
            &&& s.spawned == 0
            &&& s.stopped == 0
            &&& !(s.action() is Spawn)
            &&& !(s.action() is Stop)
        }),
    decreases events.len(),
{
    let first = DaemonModel::initial(url, binary, addresses).next(DaemonEvent::Health(true));
    lemma_running_daemon(first, events);
}

proof fn lemma_running_daemon(s: DaemonModel, events: Seq<DaemonEvent>)
    requires
        s.uses_running_daemon(),
    ensures
        s.after(events).uses_running_daemon(),
    decreases events.len(),
{
    if events.len() > 0 {
        lemma_running_daemon(s, events.drop_last());
    }
}

/// The number of health probes that a launched daemon may still fail after
/// `waited_ms` of waiting, the one that ends the waiting included.
pub open spec fn probes_left(waited_ms: u64) -> nat {
    if waited_ms < DAEMON_STARTUP_TIMEOUT_MS {
        ((DAEMON_STARTUP_TIMEOUT_MS - 1 - waited_ms) / (DAEMON_POLL_INTERVAL_MS as int) + 1) as nat
    } else {
        0
    }
}

impl DaemonModel {
    /// Whether the session waits for `event`.
    pub open spec fn expects(self, event: DaemonEvent) -> bool {
        match self.phase {
            DaemonPhase::Probing => event is Health,
            DaemonPhase::Starting { serve } => event is Spawned,
            DaemonPhase::Waiting { serve } => event is Health,
            DaemonPhase::Retiring { serve } => event is Stopped,
            DaemonPhase::Asking { owned } => event is Answer,
            DaemonPhase::Releasing => event is Stopped,
            DaemonPhase::Done => false,
        }
    }

    /// A bound on the number of events that the session still waits for.
    pub open spec fn budget(self) -> nat {
        match self.phase {
            DaemonPhase::Done => 0,
            DaemonPhase::Releasing => 1,
            DaemonPhase::Asking { owned } => 2,
            DaemonPhase::Retiring { serve } => if serve {
                39
            } else {
                3
            },
            DaemonPhase::Waiting { serve } => probes_left(self.waited_ms) + (if serve {
                39nat
            } else {
                3nat
            }),
            DaemonPhase::Starting { serve } => if serve {
                74
            } else {
                38
            },
            DaemonPhase::Probing => 75,
        }
    }
}

/// Every event that a session waits for brings it closer to its end: from
/// the first probe on, a session is over after 75 such events at most.
pub proof fn law_daemon_session_ends(s: DaemonModel, event: DaemonEvent)
    requires
        s.wf(),
        s.expects(event),
    ensures
        s.next(event).budget() < s.budget(),
        s.budget() <= 75,
        s.phase != DaemonPhase::Done ==> s.budget() >= 1,
{
}

} // verus!
