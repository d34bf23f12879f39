//! The hybrid resolver: one call takes a batch of addresses through the
//! cache, the local resolver and the remote service, and answers with one
//! row for each address. The resolver decides and keeps the state of the
//! call; its user performs each action, reports what happened, and asks for
//! the next action, until the call is finished.

use crate::geocode_cache::{contents_of, AddressCache, CacheEntry, CacheEntryModel};
use crate::geocode_result::{GeocodeRecord, GeocodeResult, ResultSource};
use crate::geocoder_config::{
    plan_of, select_plan, ConfigError, ConfigModel, GeocoderConfig, LocalPlan,
};
use crate::geocoder_daemon::{
    endpoint_of, DaemonAction, DaemonEvent, DaemonModel, DaemonPhase, DaemonSession,
    DaemonStep,
};
use crate::geocoder_oneshot::{
    classify_oneshot, oneshot_plan, oneshot_verdict, plan_oneshot, Invocation, InvocationModel,
    ProcessOutcome,
};
use crate::geocoder_runner::{daemon_binary_of, host_of, Environment};
use crate::geocodio::{
    chunk_end, request_url, RemoteAction, RemoteEntry, RemoteFailure, RemoteModel, RemoteSession,
};
use crate::local_error::LocalError;
use crate::resolution::{BatchModel, ResolutionBatch};
use crate::text::{blank, copy_strings, is_blank};
use vstd::pervasive::unreached;
use vstd::prelude::*;

verus! {

/// Where a call stands.
#[derive(Debug, Clone, Copy, PartialEq, Eq, Structural)]
pub enum Phase {
    /// The cache lookup is due.
    Cache,
    /// The one-shot process is due.
    OneShot,
    /// A daemon session is under way.
    Daemon,
    /// The rows of the local resolver are to be written to the cache.
    StoreLocal,
    /// A remote session is under way.
    Remote,
    /// The rows of the remote service are to be written to the cache.
    StoreRemote,
    /// The answer is ready.
    Finished,
    /// The call cannot go on as configured.
    Failed,
}

/// What the user of a resolver reports.
#[derive(Debug, PartialEq, Eq)]
pub enum Event {
    /// The cache was read: the entries of the addresses asked, or nothing
    /// where the cache could not be read.
    CacheRows(Option<Vec<CacheEntry>>),
    /// The one-shot process ended.
    Process(ProcessOutcome),
    /// Something happened in the daemon session.
    Daemon(DaemonEvent),
    /// The cache write was attempted; whether it succeeded does not matter.
    Stored,
    /// The remote service answered a chunk, or the request failed.
    Remote(Result<Vec<RemoteEntry>, RemoteFailure>),
}

/// The mathematical content of an [`Action`].
pub enum Step {
    LookupCache { addresses: Seq<Seq<char>> },
    RunProcess { invocation: InvocationModel },
    Daemon(DaemonStep),
    StoreCache { entries: Seq<CacheEntryModel> },
    SendRemote { url: Seq<char>, addresses: Seq<Seq<char>> },
    Finish { results: Seq<GeocodeRecord> },
    Fail { error: ConfigError },
}

/// What the user of a resolver has to do next.
#[derive(Debug, PartialEq, Eq)]
pub enum Action {
    /// Read the entries of `addresses` from the cache and report
    /// `CacheRows`.
    LookupCache { addresses: Vec<String> },
    /// Run `invocation`, capture what it prints, and report `Process`.
    RunProcess { invocation: Invocation },
    /// Do what the daemon session asks and report `Daemon`.
    Daemon(DaemonAction),
    /// Write `entries` to the cache, each on its own, and report `Stored`.
    StoreCache { entries: Vec<CacheEntry> },
    /// Send `addresses` in one request to `url` and report `Remote`.
    SendRemote { url: String, addresses: Vec<String> },
    /// Nothing: the call is over and `results` is its answer.
    Finish { results: Vec<GeocodeResult> },
    /// Nothing: the call is over and has failed.
    Fail { error: ConfigError },
}

impl View for Action {
    type V = Step;

    open spec fn view(&self) -> Step {
        match self {
            Action::LookupCache { addresses } => Step::LookupCache {
                addresses: addresses.deep_view(),
            },
            Action::RunProcess { invocation } => Step::RunProcess { invocation: invocation@ },
            Action::Daemon(action) => Step::Daemon(action@),
            Action::StoreCache { entries } => Step::StoreCache { entries: entries.deep_view() },
            Action::SendRemote { url, addresses } => Step::SendRemote {
                url: url@,
                addresses: addresses.deep_view(),
            },
            Action::Finish { results } => Step::Finish { results: results.deep_view() },
            Action::Fail { error } => Step::Fail { error: *error },
        }
    }
}

/// The mathematical content of a [`HybridGeocoder`].
pub struct HybridModel {
    pub config: ConfigModel,
    pub cwd: Seq<char>,
    pub arch: Seq<char>,
    pub os: Seq<char>,
    pub files: Seq<Seq<char>>,
    pub use_cache: bool,
    pub batch: BatchModel,
    pub phase: Phase,
    pub local_batch: usize,
    pub daemon: Option<DaemonModel>,
    pub remote: Option<RemoteModel>,
    pub local_failure: Option<LocalError>,
    pub remote_failure: Option<RemoteFailure>,
}

impl HybridModel {
    /// The platform identifier of the machine.
    pub open spec fn host(self) -> Seq<char> {
        host_of(self.arch, self.os)
    }

    /// How the batch of the local stage is handed to the local resolver.
    pub open spec fn plan(self) -> LocalPlan {
        plan_of(self.config.mode, self.local_batch, self.config.daemon_threshold)
    }

    /// The one-shot process for what is pending.
    pub open spec fn oneshot(self) -> Result<InvocationModel, LocalError> {
        oneshot_plan(
            self.config.geocoder_bin,
            self.config.geocoder_python,
            self.cwd,
            self.host(),
            self.files,
            self.batch.pending(),
        )
    }

    /// A fresh daemon session for what is pending.
    pub open spec fn new_daemon(self) -> DaemonModel {
        DaemonModel::initial(
            endpoint_of(self.config.daemon_url),
            daemon_binary_of(self.config.geocoder_bin, self.cwd, self.host(), self.files),
            self.batch.pending(),
        )
    }

    /// The call before anything was done. Without addresses it is finished
    /// at once; without a cache it starts at the local stage.
    pub open spec fn initial(
        config: ConfigModel,
        cwd: Seq<char>,
        arch: Seq<char>,
        os: Seq<char>,
        files: Seq<Seq<char>>,
        use_cache: bool,
        input: Seq<Seq<char>>,
    ) -> HybridModel {
        let m = HybridModel {
            config,
            cwd,
            arch,
            os,
            files,
            use_cache,
            batch: BatchModel::of(input),
            phase: Phase::Cache,
            local_batch: 0,
            daemon: None,
            remote: None,
            local_failure: None,
            remote_failure: None,
        };
        if m.batch.requested.len() == 0 {
            HybridModel { phase: Phase::Finished, ..m }
        } else if use_cache {
            m
        } else {
            m.enter_local()
        }
    }

    /// The call as it enters the local stage. With nothing pending the call
    /// is finished. A one-shot run that cannot even be planned counts as a
    /// failed attempt.
    pub open spec fn enter_local(self) -> HybridModel {
        if self.batch.pending().len() == 0 {
            HybridModel { phase: Phase::Finished, ..self }
        } else {
            let m = HybridModel { local_batch: self.batch.pending().len() as usize, ..self };
            match m.plan() {
                LocalPlan::DaemonOnly => m.enter_daemon(),
                LocalPlan::OneShotOnly => match m.oneshot() {
                    Ok(_) => HybridModel { phase: Phase::OneShot, ..m },
                    Err(e) => m.after_local(Err(e)),
                },
                LocalPlan::OneShotThenDaemon => match m.oneshot() {
                    Ok(_) => HybridModel { phase: Phase::OneShot, ..m },
                    Err(e) => (HybridModel { local_failure: Some(e), ..m }).enter_daemon(),
                },
            }
        }
    }

    /// The call as it opens a daemon session for what is pending.
    pub open spec fn enter_daemon(self) -> HybridModel {
        HybridModel { phase: Phase::Daemon, daemon: Some(self.new_daemon()), ..self }
    }

    /// The call after the local stage ended with `outcome`: rows are merged,
    /// a failure is noted and amounts to no rows.
    pub open spec fn after_local(self, outcome: Result<Seq<GeocodeRecord>, LocalError>) -> HybridModel {
        match outcome {
            Ok(rows) => (HybridModel {
                batch: self.batch.merged(rows, ResultSource::LocalResolver),
                ..self
            }).leave_local(),
            Err(e) => (HybridModel { local_failure: Some(e), ..self }).leave_local(),
        }
    }

    /// The call as it leaves the local stage: what the stage placed is
    /// written to the cache, where there is a cache and anything to write.
    pub open spec fn leave_local(self) -> HybridModel {
        if self.use_cache && self.batch.entries_from(ResultSource::LocalResolver).len() > 0 {
            HybridModel { phase: Phase::StoreLocal, ..self }
        } else {
            self.enter_remote()
        }
    }

    /// The call as it enters the remote stage. With nothing pending, or
    /// without a credential, the call is finished; a blank credential fails
    /// it.
    pub open spec fn enter_remote(self) -> HybridModel {
        if self.batch.pending().len() == 0 {
            HybridModel { phase: Phase::Finished, ..self }
        } else {
            match self.config.api_key {
                None => HybridModel { phase: Phase::Finished, ..self },
                Some(key) => if is_blank(key) {
                    HybridModel { phase: Phase::Failed, ..self }
                } else {
                    HybridModel {
                        phase: Phase::Remote,
                        remote: Some(
                            RemoteModel::initial(
                                request_url(self.config.geocodio_base_url, key),
                                self.batch.pending(),
                                self.config.batch_size as nat,
                            ),
                        ),
                        ..self
                    }
                },
            }
        }
    }

    /// The call as it leaves the remote stage.
    pub open spec fn leave_remote(self) -> HybridModel {
        if self.use_cache && self.batch.entries_from(ResultSource::RemoteApi).len() > 0 {
            HybridModel { phase: Phase::StoreRemote, ..self }
        } else {
            HybridModel { phase: Phase::Finished, ..self }
        }
    }

    /// The call after `event`. An event that the phase does not wait for
    /// changes nothing.
    pub open spec fn next(self, event: Event) -> HybridModel {
        match (self.phase, event) {
            (Phase::Cache, Event::CacheRows(rows)) => (match rows {
                Some(rows) => HybridModel {
                    batch: self.batch.cache_filled(contents_of(rows.deep_view())),
                    ..self
                },
                None => self,
            }).enter_local(),
            (Phase::OneShot, Event::Process(outcome)) => match oneshot_verdict(outcome) {
                Ok(rows) => self.after_local(Ok(rows.deep_view())),
                Err(e) => if self.plan() == LocalPlan::OneShotThenDaemon {
                    (HybridModel { local_failure: Some(e), ..self }).enter_daemon()
                } else {
                    self.after_local(Err(e))
                },
            },
            (Phase::Daemon, Event::Daemon(e)) => {
                let d = self.daemon->0.next(e);
                let m = HybridModel { daemon: Some(d), ..self };
                if d.phase == DaemonPhase::Done {
                    m.after_local(d.outcome->0)
                } else {
                    m
                }
            },
            (Phase::StoreLocal, Event::Stored) => self.enter_remote(),
            (Phase::Remote, Event::Remote(answer)) => {
                let r = self.remote->0.next(answer);
                let m = HybridModel { remote: Some(r), ..self };
                if r.done() {
                    match r.failure {
                        Some(f) => (HybridModel { remote_failure: Some(f), ..m }).leave_remote(),
                        None => (HybridModel {
                            batch: m.batch.merged(r.rows, ResultSource::RemoteApi),
                            ..m
                        }).leave_remote(),
                    }
                } else {
                    m
                }
            },
            (Phase::StoreRemote, Event::Stored) => HybridModel { phase: Phase::Finished, ..self },
            _ => self,
        }
    }

    /// The call after a sequence of events.
    pub open spec fn after(self, events: Seq<Event>) -> HybridModel
        decreases events.len(),
    {
        if events.len() == 0 {
            self
        } else {
            self.after(events.drop_last()).next(events.last())
        }
    }

    /// What is to be done in this state.
    pub open spec fn action(self) -> Step
        recommends
            self.wf(),
    {
        match self.phase {
            Phase::Cache => Step::LookupCache { addresses: self.batch.requested },
            Phase::OneShot => Step::RunProcess { invocation: self.oneshot()->Ok_0 },
            Phase::Daemon => Step::Daemon(self.daemon->0.action()),
            Phase::StoreLocal => Step::StoreCache {
                entries: self.batch.entries_from(ResultSource::LocalResolver),
            },
            Phase::Remote => Step::SendRemote {
                url: self.remote->0.url,
                addresses: self.remote->0.addresses.subrange(
                    self.remote->0.offset as int,
                    chunk_end(
                        self.remote->0.offset as int,
                        self.remote->0.batch_size as int,
                        self.remote->0.addresses.len() as int,
                    ),
                ),
            },
            Phase::StoreRemote => Step::StoreCache {
                entries: self.batch.entries_from(ResultSource::RemoteApi),
            },
            Phase::Finished => Step::Finish { results: self.batch.results() },
            Phase::Failed => Step::Fail { error: ConfigError::EmptyCredential },
        }
    }

    /// What holds of a call throughout: the options and the batch are in
    /// order.
    pub open spec fn base_wf(self) -> bool {
        self.config.wf() && self.batch.wf() && self.batch.requested.len() <= usize::MAX
    }

    /// What holds of a call between two events.
    pub open spec fn wf(self) -> bool {
        &&& self.base_wf()
        &&& self.phase == Phase::Cache ==> self.daemon is None && self.batch.requested.len() > 0
        &&& self.phase == Phase::OneShot ==> self.oneshot() is Ok && self.plan()
            != LocalPlan::DaemonOnly && self.daemon is None && self.batch.pending().len()
            == self.local_batch
        &&& self.daemon matches Some(d) ==> d.wf() && (d.phase == DaemonPhase::Done
            <==> self.phase != Phase::Daemon) && (self.plan() == LocalPlan::DaemonOnly || (
        self.plan() == LocalPlan::OneShotThenDaemon && self.local_failure is Some))
        &&& self.phase == Phase::Daemon ==> self.daemon is Some && self.daemon->0.addresses
            == self.batch.pending() && self.batch.pending().len() == self.local_batch
        &&& self.phase == Phase::Remote ==> self.remote is Some && self.remote->0.wf()
            && !self.remote->0.done() && self.remote->0.addresses == self.batch.pending()
        &&& self.phase == Phase::Failed ==> self.batch.pending().len() > 0 && (
        self.config.api_key matches Some(key) && is_blank(key))
    }

    /// What holds of a call once its local stage is over: a daemon session
    /// that was opened has ended.
    pub open spec fn local_settled(self) -> bool {
        &&& self.base_wf()
        &&& self.daemon matches Some(d) ==> d.wf() && d.phase == DaemonPhase::Done && (self.plan()
            == LocalPlan::DaemonOnly || (self.plan() == LocalPlan::OneShotThenDaemon
            && self.local_failure is Some))
    }
}

/// One call of the hybrid resolver.
pub struct HybridGeocoder {
    pub config: GeocoderConfig,
    pub env: Environment,
    pub use_cache: bool,
    pub batch: ResolutionBatch,
    pub phase: Phase,
    pub local_batch: usize,
    pub daemon: Option<DaemonSession>,
    pub remote: Option<RemoteSession>,
    pub local_failure: Option<LocalError>,
    pub remote_failure: Option<RemoteFailure>,
}

impl View for HybridGeocoder {
    type V = HybridModel;

    open spec fn view(&self) -> HybridModel {
        HybridModel {
            config: self.config@,
            cwd: self.env.cwd@,
            arch: self.env.arch@,
            os: self.env.os@,
            files: self.env.files.deep_view(),
            use_cache: self.use_cache,
            batch: self.batch@,
            phase: self.phase,
            local_batch: self.local_batch,
            daemon: match self.daemon {
                Some(d) => Some(d@),
                None => None,
            },
            remote: match self.remote {
                Some(r) => Some(r@),
                None => None,
            },
            local_failure: self.local_failure,
            remote_failure: self.remote_failure,
        }
    }
}

impl HybridGeocoder {
    /// Begins a call for `addresses`. `use_cache` says whether a cache is
    /// configured; `env` is what the search for the local resolver may see.
    pub fn start(
        config: GeocoderConfig,
        env: Environment,
        use_cache: bool,
        addresses: &[String],
    ) -> (g: HybridGeocoder)
        requires
            config@.wf(),
        ensures
            g@ == HybridModel::initial(
                config@,
                env.cwd@,
                env.arch@,
                env.os@,
                env.files.deep_view(),
                use_cache,
                addresses.deep_view(),
            ),
            g@.wf(),
    {
        let batch = ResolutionBatch::new(addresses);
        let empty: bool = batch.len() == 0;
        let mut g = HybridGeocoder {
            config,
            env,
            use_cache,
            batch,
            phase: Phase::Cache,
            local_batch: 0,
            daemon: None,
            remote: None,
            local_failure: None,
            remote_failure: None,
        };
        if empty {
            g.phase = Phase::Finished;
        } else if !use_cache {
            g.enter_local();
        }
        g
    }

    /// Whether the call is over, with an answer or with a failure.
    pub fn is_over(&self) -> (r: bool)
        ensures
            r == (self@.phase == Phase::Finished || self@.phase == Phase::Failed),
    {
        match self.phase {
            Phase::Finished => true,
            Phase::Failed => true,
            _ => false,
        }
    }

    /// Why the local stage gave no rows, where it did fail.
    pub fn local_failure(&self) -> (r: Option<LocalError>)
        ensures
            r == self@.local_failure,
    {
        match &self.local_failure {
            Some(e) => Some(e.duplicate()),
            None => None,
        }
    }

    /// Why the remote stage gave no rows, where it did fail.
    pub fn remote_failure(&self) -> (r: Option<RemoteFailure>)
        ensures
            r == self@.remote_failure,
    {
        match &self.remote_failure {
            Some(f) => Some(f.duplicate()),
            None => None,
        }
    }

    fn enter_local(&mut self)
        requires
            old(self)@.base_wf(),
            old(self)@.daemon is None,
        ensures
            final(self)@ == old(self)@.enter_local(),
            final(self)@.wf(),
    {
        let pending = self.batch.pending();
        proof {
            crate::resolution::lemma_pending(self@.batch);
        }
        if pending.len() == 0 {
            self.phase = Phase::Finished;
            return ;
        }
        self.local_batch = pending.len();
        let plan = select_plan(self.config.mode, self.local_batch, self.config.daemon_threshold);
        match plan {
            LocalPlan::DaemonOnly => {
                self.enter_daemon();
            },
            LocalPlan::OneShotOnly => {
                match plan_oneshot(
                    &self.config.geocoder_bin,
                    &self.config.geocoder_python,
                    &self.env,
                    pending.as_slice(),
                ) {
                    Ok(_) => {
                        self.phase = Phase::OneShot;
                    },
                    Err(e) => {
                        self.local_failure = Some(e);
                        self.leave_local();
                    },
                }
            },
            LocalPlan::OneShotThenDaemon => {
                match plan_oneshot(
                    &self.config.geocoder_bin,
                    &self.config.geocoder_python,
                    &self.env,
                    pending.as_slice(),
                ) {
                    Ok(_) => {
                        self.phase = Phase::OneShot;
                    },
                    Err(e) => {
                        self.local_failure = Some(e);
                        self.enter_daemon();
                    },
                }
            },
        }
    }

    fn enter_daemon(&mut self)
        requires
            old(self)@.base_wf(),
            old(self)@.plan() == LocalPlan::DaemonOnly || (old(self)@.plan()
                == LocalPlan::OneShotThenDaemon && old(self)@.local_failure is Some),
            old(self)@.batch.pending().len() == old(self)@.local_batch,
        ensures
            final(self)@ == old(self)@.enter_daemon(),
            final(self)@.wf(),
    {
        let pending = self.batch.pending();
        let session = DaemonSession::start(
            self.config.daemon_url.as_str(),
            &self.config.geocoder_bin,
            &self.env,
            pending.as_slice(),
        );
        self.daemon = Some(session);
        self.phase = Phase::Daemon;
    }

    fn leave_local(&mut self)
        requires
            old(self)@.local_settled(),
        ensures
            final(self)@ == old(self)@.leave_local(),
            final(self)@.wf(),
    {
        let entries = self.batch.entries(ResultSource::LocalResolver);
        if self.use_cache && entries.len() > 0 {
            self.phase = Phase::StoreLocal;
        } else {
            self.enter_remote();
        }
    }

    fn enter_remote(&mut self)
        requires
            old(self)@.local_settled(),
        ensures
            final(self)@ == old(self)@.enter_remote(),
            final(self)@.wf(),
    {
        let pending = self.batch.pending();
        if pending.len() == 0 {
            self.phase = Phase::Finished;
            return ;
        }
        match RemoteSession::start(
            &self.config.api_key,
            self.config.geocodio_base_url.as_str(),
            self.config.batch_size,
            pending.as_slice(),
        ) {
            Ok(session) => {
                self.remote = Some(session);
                self.phase = Phase::Remote;
            },
            Err(ConfigError::EmptyCredential) => {
                self.phase = Phase::Failed;
            },
            Err(_) => {
                self.phase = Phase::Finished;
            },
        }
    }

    fn leave_remote(&mut self)
        requires
            old(self)@.local_settled(),
        ensures
            final(self)@ == old(self)@.leave_remote(),
            final(self)@.wf(),
    {
        let entries = self.batch.entries(ResultSource::RemoteApi);
        if self.use_cache && entries.len() > 0 {
            self.phase = Phase::StoreRemote;
        } else {
            self.phase = Phase::Finished;
        }
    }

    /// What is to be done next.
    pub fn action(&self) -> (r: Action)
        requires
            self@.wf(),
        ensures
            r@ == self@.action(),
    {
        match self.phase {
            Phase::Cache => Action::LookupCache {
                addresses: copy_strings(self.batch.requested.as_slice()),
            },
            Phase::OneShot => {
                let pending = self.batch.pending();
                match plan_oneshot(
                    &self.config.geocoder_bin,
                    &self.config.geocoder_python,
                    &self.env,
                    pending.as_slice(),
                ) {
                    Ok(invocation) => Action::RunProcess { invocation },
                    Err(_) => unreached(),
                }
            },
            Phase::Daemon => match &self.daemon {
                Some(d) => Action::Daemon(d.action()),
                None => unreached(),
            },
            Phase::StoreLocal => Action::StoreCache {
                entries: self.batch.entries(ResultSource::LocalResolver),
            },
            Phase::Remote => match &self.remote {
                Some(r) => match r.action() {
                    RemoteAction::Send { url, addresses } => Action::SendRemote { url, addresses },
                    RemoteAction::Done { outcome } => unreached(),
                },
                None => unreached(),
            },
            Phase::StoreRemote => Action::StoreCache {
                entries: self.batch.entries(ResultSource::RemoteApi),
            },
            Phase::Finished => Action::Finish { results: self.batch.results() },
            Phase::Failed => Action::Fail { error: ConfigError::EmptyCredential },
        }
    }

    /// Takes note of what happened and moves on.
    pub fn handle(&mut self, event: Event)
        requires
            old(self)@.wf(),
        ensures
            final(self)@ == old(self)@.next(event),
            final(self)@.wf(),
    {
        match (self.phase, event) {
            (Phase::Cache, Event::CacheRows(rows)) => {
                match rows {
                    Some(rows) => {
                        let cache = AddressCache::from_rows(&rows);
                        self.batch.fill_from_cache(&cache);
                    },
                    None => {},
                }
                self.enter_local();
            },
            (Phase::OneShot, Event::Process(outcome)) => {
                match classify_oneshot(outcome) {
                    Ok(rows) => {
                        self.batch.merge(rows.as_slice(), ResultSource::LocalResolver);
                        self.leave_local();
                    },
                    Err(e) => {
                        self.local_failure = Some(e);
                        match select_plan(
                            self.config.mode,
                            self.local_batch,
                            self.config.daemon_threshold,
                        ) {
                            LocalPlan::OneShotThenDaemon => {
                                self.enter_daemon();
                            },
                            _ => {
                                self.leave_local();
                            },
                        }
                    },
                }
            },
            (Phase::Daemon, Event::Daemon(e)) => {
                match self.daemon.take() {
                    Some(mut d) => {
                        d.handle(e);
                        if d.is_done() {
                            match &d.outcome {
                                Some(Ok(rows)) => {
                                    self.batch.merge(
                                        rows.as_slice(),
                                        ResultSource::LocalResolver,
                                    );
                                },
                                Some(Err(e)) => {
                                    self.local_failure = Some(e.duplicate());
                                },
                                None => {},
                            }
                            self.daemon = Some(d);
                            self.leave_local();
                        } else {
                            self.daemon = Some(d);
                        }
                    },
                    None => {},
                }
            },
            (Phase::StoreLocal, Event::Stored) => {
                self.enter_remote();
            },
            (Phase::Remote, Event::Remote(answer)) => {
                match self.remote.take() {
                    Some(mut r) => {
                        r.handle(answer);
                        if r.is_done() {
                            match &r.failure {
                                Some(f) => {
                                    self.remote_failure = Some(f.duplicate());
                                },
                                None => {
                                    self.batch.merge(r.rows.as_slice(), ResultSource::RemoteApi);
                                },
                            }
                            self.remote = Some(r);
                            self.leave_remote();
                        } else {
                            self.remote = Some(r);
                        }
                    },
                    None => {},
                }
            },
            (Phase::StoreRemote, Event::Stored) => {
                self.phase = Phase::Finished;
            },
            _ => {},
        }
    }
}

} // verus!
