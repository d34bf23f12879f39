//! What holds of every call of the hybrid resolver, whatever its user
//! reports and in whatever order.

use crate::geocode::{Event, HybridModel, Phase, Step};
use crate::geocode_cache::{
    contents_of, hit_record, written_after, CacheContents, CacheEntry, CachedLocation,
};
use crate::geocode_result::{GeocodeRecord, ResultSource};
use crate::geocoder_config::{ConfigModel, GeocodeMode, LocalPlan};
use crate::geocoder_daemon::{DaemonEvent, DaemonPhase, DaemonStep};
use crate::geocoder_oneshot::{oneshot_plan, oneshot_verdict};
use crate::resolution::{
    addresses_of, law_placed_rows_are_written, law_results_cover_requested,
    lemma_cache_filled_keeps, lemma_merged_keeps, lemma_pending, lemma_unique_of, unique_of,
    BatchModel,
};
use vstd::prelude::*;

verus! {

/// What no event changes: the options, what the search may see, the
/// addresses asked, and every row placed so far.
pub open spec fn keeps(before: HybridModel, after: HybridModel) -> bool {
    &&& after.config == before.config
    &&& after.cwd == before.cwd
    &&& after.arch == before.arch
    &&& after.os == before.os
    &&& after.files == before.files
    &&& after.use_cache == before.use_cache
    &&& after.batch.requested == before.batch.requested
    &&& after.batch.slots.len() == before.batch.slots.len()
    &&& forall|i: int|
        0 <= i < before.batch.slots.len() && before.batch.slots[i] is Some
            ==> #[trigger] after.batch.slots[i] == before.batch.slots[i]
}

proof fn lemma_enter_remote(m: HybridModel)
    requires
        m.local_settled(),
    ensures
        m.enter_remote().wf(),
        keeps(m, m.enter_remote()),
        m.leave_remote().wf(),
        keeps(m, m.leave_remote()),
        m.leave_local().wf(),
        keeps(m, m.leave_local()),
{
    lemma_pending(m.batch);
}

proof fn lemma_after_local(m: HybridModel, outcome: Result<Seq<GeocodeRecord>, crate::local_error::LocalError>)
    requires
        m.local_settled(),
        m.plan() == LocalPlan::OneShotThenDaemon && m.daemon is Some ==> m.local_failure is Some,
    ensures
        m.after_local(outcome).wf(),
        keeps(m, m.after_local(outcome)),
{
    match outcome {
        Ok(rows) => {
            lemma_merged_keeps(m.batch, rows, ResultSource::LocalResolver);
            let merged = HybridModel {
                batch: m.batch.merged(rows, ResultSource::LocalResolver),
                ..m
            };
            lemma_enter_remote(merged);
        },
        Err(e) => {
            lemma_enter_remote(HybridModel { local_failure: Some(e), ..m });
        },
    }
}

proof fn lemma_enter_local(m: HybridModel)
    requires
        m.base_wf(),
        m.daemon is None,
    ensures
        m.enter_local().wf(),
        keeps(m, m.enter_local()),
{
    lemma_pending(m.batch);
    if m.batch.pending().len() > 0 {
        let sized = HybridModel { local_batch: m.batch.pending().len() as usize, ..m };
        match sized.plan() {
            LocalPlan::DaemonOnly => {},
            LocalPlan::OneShotOnly => {
                if let Err(e) = sized.oneshot() {
                    lemma_after_local(sized, Err(e));
                }
            },
            LocalPlan::OneShotThenDaemon => {},
        }
    }
}

/// Every event leaves a call in order and keeps what was settled before it.
pub proof fn law_step_keeps_order(m: HybridModel, event: Event)
    requires
        m.wf(),
    ensures
        m.next(event).wf(),
        keeps(m, m.next(event)),
{
    match (m.phase, event) {
        (Phase::Cache, Event::CacheRows(rows)) => {
            match rows {
                Some(rows) => {
                    lemma_cache_filled_keeps(m.batch, contents_of(rows.deep_view()));
                    let filled = HybridModel {
                        batch: m.batch.cache_filled(contents_of(rows.deep_view())),
                        ..m
                    };
                    lemma_enter_local(filled);
                },
                None => {
                    lemma_enter_local(m);
                },
            }
        },
        (Phase::OneShot, Event::Process(outcome)) => {
            match oneshot_verdict(outcome) {
                Ok(rows) => {
                    lemma_after_local(m, Ok(rows.deep_view()));
                },
                Err(e) => {
                    if m.plan() != LocalPlan::OneShotThenDaemon {
                        lemma_after_local(m, Err(e));
                    }
                },
            }
        },
        (Phase::Daemon, Event::Daemon(e)) => {
            let d = m.daemon->0.next(e);
            let moved = HybridModel { daemon: Some(d), ..m };
            if d.phase == DaemonPhase::Done {
                lemma_after_local(moved, d.outcome->0);
            }
        },
        (Phase::StoreLocal, Event::Stored) => {
            lemma_enter_remote(m);
        },
        (Phase::Remote, Event::Remote(answer)) => {
            let r = m.remote->0.next(answer);
            let moved = HybridModel { remote: Some(r), ..m };
            if r.done() {
                match r.failure {
                    Some(f) => {
                        lemma_enter_remote(HybridModel { remote_failure: Some(f), ..moved });
                    },
                    None => {
                        lemma_merged_keeps(m.batch, r.rows, ResultSource::RemoteApi);
                        lemma_enter_remote(
                            HybridModel {
                                batch: m.batch.merged(r.rows, ResultSource::RemoteApi),
                                ..moved
                            },
                        );
                    },
                }
            }
        },
        _ => {},
    }
}

/// A call is in order from its start, for options that are in order and as
/// many addresses as a machine can hold.
pub proof fn law_start_is_in_order(
    config: ConfigModel,
    cwd: Seq<char>,
    arch: Seq<char>,
    os: Seq<char>,
    files: Seq<Seq<char>>,
    use_cache: bool,
    input: Seq<Seq<char>>,
)
    requires
        config.wf(),
        input.len() <= usize::MAX,
    ensures
        HybridModel::initial(config, cwd, arch, os, files, use_cache, input).wf(),
        HybridModel::initial(config, cwd, arch, os, files, use_cache, input).batch.requested
            == unique_of(input),
{
    lemma_unique_of(input);
    let m = HybridModel {
        config,
        cwd,
        arch,
        os,
        files,
        use_cache,
        batch: BatchModel::of(input),
        phase: Phase::Cache,
        local_batch: 0,
        daemon: None,
        remote: None,
        local_failure: None,
        remote_failure: None,
    };
    if m.batch.requested.len() > 0 && !use_cache {
        lemma_enter_local(m);
    }
}

/// Whatever is reported, in whatever order, a call stays in order and keeps
/// what was settled.
pub proof fn law_call_keeps_order(m: HybridModel, events: Seq<Event>)
    requires
        m.wf(),
    ensures
        m.after(events).wf(),
        keeps(m, m.after(events)),
    decreases events.len(),
{
    if events.len() > 0 {
        law_call_keeps_order(m, events.drop_last());
        law_step_keeps_order(m.after(events.drop_last()), events.last());
    }
}

/// However a call goes, and whichever stages fail, its answer holds exactly
/// one row for each distinct address of the input, in the order of first
/// occurrence: no address is left out, none is answered twice, none is made
/// up; and each row has both coordinates or neither.
pub proof fn law_one_row_per_address(
    config: ConfigModel,
    cwd: Seq<char>,
    arch: Seq<char>,
    os: Seq<char>,
    files: Seq<Seq<char>>,
    use_cache: bool,
    input: Seq<Seq<char>>,
    events: Seq<Event>,
)
    requires
        config.wf(),
        input.len() <= usize::MAX,
    ensures
        ({
            let m = HybridModel::initial(config, cwd, arch, os, files, use_cache, input).after(events);
            m.action() matches Step::Finish { results } ==> {
                &&& addresses_of(results) == unique_of(input)
                &&& addresses_of(results).no_duplicates()
                &&& forall|a: Seq<char>| input.contains(a) <==> addresses_of(results).contains(a)
                &&& forall|i: int| 0 <= i < results.len() ==> (#[trigger] results[i]).well_formed()
            }
        }),
{
    let start = HybridModel::initial(config, cwd, arch, os, files, use_cache, input);
    law_start_is_in_order(config, cwd, arch, os, files, use_cache, input);
    law_call_keeps_order(start, events);
    let m = start.after(events);
    law_results_cover_requested(m.batch);
    lemma_unique_of(input);
}

/// The addresses that the action at hand hands to a resolver.
pub open spec fn asked(m: HybridModel) -> Seq<Seq<char>> {
    match m.phase {
        Phase::OneShot => m.batch.pending(),
        Phase::Daemon => m.daemon->0.addresses,
        Phase::Remote => m.remote->0.addresses,
        _ => Seq::empty(),
    }
}

/// A stage is asked for pending addresses only: the one-shot process and the
/// daemon get all that is pending, a remote request gets a part of it.
pub proof fn law_stages_get_what_is_pending(m: HybridModel)
    requires
        m.wf(),
    ensures
        m.phase == Phase::OneShot || m.phase == Phase::Daemon || m.phase == Phase::Remote
            ==> asked(m) == m.batch.pending(),
        match m.action() {
            Step::RunProcess { invocation } => oneshot_plan(
                m.config.geocoder_bin,
                m.config.geocoder_python,
                m.cwd,
                m.host(),
                m.files,
                asked(m),
            ) == Ok::<crate::geocoder_oneshot::InvocationModel, crate::local_error::LocalError>(
                invocation,
            ),
            Step::Daemon(DaemonStep::Query { url, addresses }) => addresses == asked(m),
            Step::SendRemote { url, addresses } => forall|a: Seq<char>|
                addresses.contains(a) ==> asked(m).contains(a),
            _ => true,
        },
{
}

/// An address that the cache holds is settled by the lookup: its row is the
/// row of the cache entry, with the coordinates as they were stored,
/// whatever is reported afterwards; and no stage is asked for it again.
pub proof fn law_cache_hit_is_final(
    config: ConfigModel,
    cwd: Seq<char>,
    arch: Seq<char>,
    os: Seq<char>,
    files: Seq<Seq<char>>,
    input: Seq<Seq<char>>,
    rows: Vec<CacheEntry>,
    address: Seq<char>,
    events: Seq<Event>,
)
    requires
        config.wf(),
        input.len() <= usize::MAX,
        input.contains(address),
        contents_of(rows.deep_view()).contains_key(address),
    ensures
        ({
            let m = HybridModel::initial(config, cwd, arch, os, files, true, input).next(
                Event::CacheRows(Some(rows)),
            ).after(events);
            &&& !asked(m).contains(address)
            &&& !m.batch.pending().contains(address)
            &&& forall|i: int|
                0 <= i < m.batch.requested.len() && m.batch.requested[i] == address
                    ==> #[trigger] m.batch.results()[i] == hit_record(
                    address,
                    contents_of(rows.deep_view())[address],
                )
        }),
{
    let start = HybridModel::initial(config, cwd, arch, os, files, true, input);
    law_start_is_in_order(config, cwd, arch, os, files, true, input);
    lemma_unique_of(input);
    assert(start.batch.requested.contains(address));
    let looked = start.next(Event::CacheRows(Some(rows)));
    law_step_keeps_order(start, Event::CacheRows(Some(rows)));
    let m = looked.after(events);
    law_call_keeps_order(looked, events);
    law_stages_get_what_is_pending(m);
    law_results_cover_requested(m.batch);
    lemma_pending(m.batch);
    let filled = start.batch.cache_filled(contents_of(rows.deep_view()));
    lemma_cache_filled_keeps(start.batch, contents_of(rows.deep_view()));
    assert forall|i: int|
        0 <= i < m.batch.requested.len() && m.batch.requested[i] == address implies (
    #[trigger] m.batch.slots[i]) == Some(
        hit_record(address, contents_of(rows.deep_view())[address]),
    ) by {
        assert(filled.slots[i] == Some(
            hit_record(address, contents_of(rows.deep_view())[address]),
        ));
        lemma_enter_local(HybridModel { batch: filled, ..start });
        assert(looked.batch.slots[i] == filled.slots[i]);
    }
}

/// In `auto`, the one-shot process is run for batches below the cutoff
/// only, and the daemon is used for a batch below the cutoff only after the
/// one-shot attempt on it failed. A batch at or above the cutoff goes to
/// the daemon and never to the one-shot process.
pub proof fn law_auto_mode(
    config: ConfigModel,
    cwd: Seq<char>,
    arch: Seq<char>,
    os: Seq<char>,
    files: Seq<Seq<char>>,
    use_cache: bool,
    input: Seq<Seq<char>>,
    events: Seq<Event>,
)
    requires
        config.wf(),
        input.len() <= usize::MAX,
        config.mode == GeocodeMode::Auto,
    ensures
        ({
            let m = HybridModel::initial(config, cwd, arch, os, files, use_cache, input).after(events);
            &&& m.action() is RunProcess ==> m.batch.pending().len() < config.daemon_threshold
            &&& m.action() is Daemon ==> m.batch.pending().len() >= config.daemon_threshold
                || m.local_failure is Some
            &&& m.daemon is Some ==> m.local_batch >= config.daemon_threshold
                || m.local_failure is Some
        }),
{
    let start = HybridModel::initial(config, cwd, arch, os, files, use_cache, input);
    law_start_is_in_order(config, cwd, arch, os, files, use_cache, input);
    law_call_keeps_order(start, events);
}

/// No report that the daemon answered its health probe is among `events`.
pub open spec fn no_daemon_answers(events: Seq<Event>) -> bool {
    forall|i: int|
        0 <= i < events.len() ==> #[trigger] events[i] != Event::Daemon(DaemonEvent::Health(true))
}

/// What a call is like when nothing can resolve: no row is placed, and the
/// call waits for the first health probe of the daemon or is finished.
spec fn resolves_nothing(m: HybridModel) -> bool {
    &&& m.wf()
    &&& m.files.len() == 0
    &&& m.config.api_key is None
    &&& !m.use_cache
    &&& forall|i: int| 0 <= i < m.batch.slots.len() ==> (#[trigger] m.batch.slots[i]) is None
    &&& m.phase == Phase::Finished || (m.phase == Phase::Daemon && m.daemon->0.phase
        == DaemonPhase::Probing && m.daemon->0.binary is Err)
}

proof fn lemma_resolves_nothing(m: HybridModel, events: Seq<Event>)
    requires
        resolves_nothing(m),
        no_daemon_answers(events),
    ensures
        resolves_nothing(m.after(events)),
    decreases events.len(),
{
    if events.len() > 0 {
        let before = m.after(events.drop_last());
        assert forall|i: int| 0 <= i < events.drop_last().len() implies #[trigger] events.drop_last()[i]
            != Event::Daemon(DaemonEvent::Health(true)) by {
            assert(events.drop_last()[i] == events[i]);
        }
        lemma_resolves_nothing(m, events.drop_last());
        law_step_keeps_order(before, events.last());
        assert(events.last() == events[events.len() - 1]);
        lemma_pending(before.batch);
    }
}

/// Without a local resolver on disk, without a daemon that answers, without
/// a cache and without a credential for the remote service, a call does not
/// fail: it starts no process, sends nothing to the remote service, and
/// finishes with one row without coordinates for each address.
pub proof fn law_degrades_to_unresolved_rows(
    config: ConfigModel,
    cwd: Seq<char>,
    arch: Seq<char>,
    os: Seq<char>,
    input: Seq<Seq<char>>,
    events: Seq<Event>,
)
    requires
        config.wf(),
        input.len() <= usize::MAX,
        config.api_key is None,
        no_daemon_answers(events),
    ensures
        ({
            let m = HybridModel::initial(config, cwd, arch, os, Seq::empty(), false, input).after(
                events,
            );
            &&& m.phase != Phase::Failed
            &&& !(m.action() is RunProcess)
            &&& !(m.action() is SendRemote)
            &&& !(m.action() matches Step::Daemon(DaemonStep::Spawn { .. }))
            &&& m.action() matches Step::Finish { results } ==> results == Seq::new(
                unique_of(input).len(),
                |i: int| GeocodeRecord::residual(unique_of(input)[i]),
            )
        }),
{
    let files = Seq::<Seq<char>>::empty();
    let start = HybridModel::initial(config, cwd, arch, os, files, false, input);
    law_start_is_in_order(config, cwd, arch, os, files, false, input);
    crate::geocoder_runner::law_no_files_no_resolver(
        config.geocoder_bin,
        cwd,
        crate::geocoder_runner::host_of(arch, os),
    );
    let m0 = HybridModel {
        config,
        cwd,
        arch,
        os,
        files,
        use_cache: false,
        batch: BatchModel::of(input),
        phase: Phase::Cache,
        local_batch: 0,
        daemon: None,
        remote: None,
        local_failure: None,
        remote_failure: None,
    };
    lemma_pending(m0.batch);
    assert(resolves_nothing(start));
    lemma_resolves_nothing(start, events);
    let m = start.after(events);
    law_call_keeps_order(start, events);
    if m.action() is Finish {
        assert(m.batch.results() =~= Seq::new(
            unique_of(input).len(),
            |i: int| GeocodeRecord::residual(unique_of(input)[i]),
        ));
    }
}

/// A call fails for one reason only: the remote service is needed and its
/// credential is set but blank.
pub proof fn law_failure_means_blank_credential(
    config: ConfigModel,
    cwd: Seq<char>,
    arch: Seq<char>,
    os: Seq<char>,
    files: Seq<Seq<char>>,
    use_cache: bool,
    input: Seq<Seq<char>>,
    events: Seq<Event>,
)
    requires
        config.wf(),
        input.len() <= usize::MAX,
    ensures
        ({
            let m = HybridModel::initial(config, cwd, arch, os, files, use_cache, input).after(events);
            m.action() is Fail ==> (config.api_key matches Some(key) && crate::text::is_blank(key))
                && m.batch.pending().len() > 0
        }),
{
    let start = HybridModel::initial(config, cwd, arch, os, files, use_cache, input);
    law_start_is_in_order(config, cwd, arch, os, files, use_cache, input);
    law_call_keeps_order(start, events);
}

/// A call stops the daemon that it started: while the call goes on at most
/// one process of its own is running, and when the call is over, with an
/// answer or a failure, none is.
pub proof fn law_call_stops_its_daemon(
    config: ConfigModel,
    cwd: Seq<char>,
    arch: Seq<char>,
    os: Seq<char>,
    files: Seq<Seq<char>>,
    use_cache: bool,
    input: Seq<Seq<char>>,
    events: Seq<Event>,
)
    requires
        config.wf(),
        input.len() <= usize::MAX,
    ensures
        ({
            let m = HybridModel::initial(config, cwd, arch, os, files, use_cache, input).after(events);
            m.daemon matches Some(d) ==> {
                &&& 0 <= d.children() <= 1
                &&& m.phase != Phase::Daemon ==> d.children() == 0
                &&& m.action() is Finish || m.action() is Fail ==> d.children() == 0
            }
        }),
{
    let start = HybridModel::initial(config, cwd, arch, os, files, use_cache, input);
    law_start_is_in_order(config, cwd, arch, os, files, use_cache, input);
    law_call_keeps_order(start, events);
}

/// A call that found the daemon running never starts a process and never
/// stops one, whatever is reported afterwards: the daemon that was found is
/// left running.
pub proof fn law_call_leaves_found_daemon_running(m: HybridModel, events: Seq<Event>)
    requires
        m.wf(),
        m.daemon matches Some(d) && d.uses_running_daemon(),
    ensures
        m.after(events).daemon matches Some(d) && d.uses_running_daemon(),
        !(m.after(events).action() matches Step::Daemon(DaemonStep::Spawn { .. })),
        !(m.after(events).action() matches Step::Daemon(DaemonStep::Stop)),
    decreases events.len(),
{
    if events.len() > 0 {
        law_call_leaves_found_daemon_running(m, events.drop_last());
        law_call_keeps_order(m, events.drop_last());
        law_step_keeps_order(m.after(events.drop_last()), events.last());
    }
}

/// Whether the call waits for `event`.
pub open spec fn expects(m: HybridModel, event: Event) -> bool {
    match m.phase {
        Phase::Cache => event is CacheRows,
        Phase::OneShot => event is Process,
        Phase::Daemon => event matches Event::Daemon(e) && m.daemon->0.expects(e),
        Phase::StoreLocal => event is Stored,
        Phase::Remote => event is Remote,
        Phase::StoreRemote => event is Stored,
        Phase::Finished => false,
        Phase::Failed => false,
    }
}

/// A bound on the number of events that the call still waits for.
pub open spec fn budget(m: HybridModel) -> nat {
    let asked = m.batch.requested.len();
    match m.phase {
        Phase::Finished => 0,
        Phase::Failed => 0,
        Phase::StoreRemote => 1,
        Phase::Remote => m.remote->0.budget() + 1,
        Phase::StoreLocal => asked + 2,
        Phase::Daemon => m.daemon->0.budget() + asked + 3,
        Phase::OneShot => asked + 79,
        Phase::Cache => asked + 80,
    }
}

/// Whether each of `events` is waited for when it arrives.
pub open spec fn all_expected(m: HybridModel, events: Seq<Event>) -> bool
    decreases events.len(),
{
    if events.len() == 0 {
        true
    } else {
        all_expected(m, events.drop_last()) && expects(
            m.after(events.drop_last()),
            events.last(),
        )
    }
}

proof fn lemma_budget_after_local(m: HybridModel)
    requires
        m.local_settled(),
    ensures
        budget(m.leave_local()) <= m.batch.requested.len() + 2,
        budget(m.enter_remote()) <= m.batch.requested.len() + 1,
        budget(m.leave_remote()) <= 1,
{
    lemma_pending(m.batch);
}

proof fn lemma_budget_enter_local(m: HybridModel)
    requires
        m.base_wf(),
        m.daemon is None,
    ensures
        budget(m.enter_local()) <= m.batch.requested.len() + 79,
{
    lemma_pending(m.batch);
    if m.batch.pending().len() > 0 {
        let sized = HybridModel { local_batch: m.batch.pending().len() as usize, ..m };
        match sized.plan() {
            LocalPlan::DaemonOnly => {},
            LocalPlan::OneShotOnly => {
                if let Err(e) = sized.oneshot() {
                    lemma_budget_after_local(HybridModel { local_failure: Some(e), ..sized });
                }
            },
            LocalPlan::OneShotThenDaemon => {},
        }
    }
}

/// Every event that a call waits for brings it closer to its end.
pub proof fn law_step_brings_the_end_closer(m: HybridModel, event: Event)
    requires
        m.wf(),
        expects(m, event),
    ensures
        budget(m.next(event)) < budget(m),
{
    law_step_keeps_order(m, event);
    match (m.phase, event) {
        (Phase::Cache, Event::CacheRows(rows)) => {
            match rows {
                Some(rows) => {
                    lemma_cache_filled_keeps(m.batch, contents_of(rows.deep_view()));
                    lemma_budget_enter_local(
                        HybridModel {
                            batch: m.batch.cache_filled(contents_of(rows.deep_view())),
                            ..m
                        },
                    );
                },
                None => {
                    lemma_budget_enter_local(m);
                },
            }
        },
        (Phase::OneShot, Event::Process(outcome)) => {
            match oneshot_verdict(outcome) {
                Ok(rows) => {
                    lemma_merged_keeps(m.batch, rows.deep_view(), ResultSource::LocalResolver);
                    lemma_budget_after_local(
                        HybridModel {
                            batch: m.batch.merged(rows.deep_view(), ResultSource::LocalResolver),
                            ..m
                        },
                    );
                },
                Err(e) => {
                    if m.plan() != LocalPlan::OneShotThenDaemon {
                        lemma_budget_after_local(HybridModel { local_failure: Some(e), ..m });
                    }
                },
            }
        },
        (Phase::Daemon, Event::Daemon(e)) => {
            let d = m.daemon->0.next(e);
            crate::geocoder_daemon::law_daemon_session_ends(m.daemon->0, e);
            let moved = HybridModel { daemon: Some(d), ..m };
            if d.phase == DaemonPhase::Done {
                match d.outcome->0 {
                    Ok(rows) => {
                        lemma_merged_keeps(m.batch, rows, ResultSource::LocalResolver);
                        lemma_budget_after_local(
                            HybridModel {
                                batch: m.batch.merged(rows, ResultSource::LocalResolver),
                                ..moved
                            },
                        );
                    },
                    Err(e) => {
                        lemma_budget_after_local(HybridModel { local_failure: Some(e), ..moved });
                    },
                }
            }
        },
        (Phase::StoreLocal, Event::Stored) => {
            lemma_budget_after_local(m);
        },
        (Phase::Remote, Event::Remote(answer)) => {
            let r = m.remote->0.next(answer);
            crate::geocodio::law_remote_session_ends(m.remote->0, answer);
            let moved = HybridModel { remote: Some(r), ..m };
            if r.done() {
                match r.failure {
                    Some(f) => {
                        lemma_budget_after_local(HybridModel { remote_failure: Some(f), ..moved });
                    },
                    None => {
                        lemma_merged_keeps(m.batch, r.rows, ResultSource::RemoteApi);
                        lemma_budget_after_local(
                            HybridModel {
                                batch: m.batch.merged(r.rows, ResultSource::RemoteApi),
                                ..moved
                            },
                        );
                    },
                }
            }
        },
        _ => {},
    }
}

/// A call comes to an end: where every action is performed and reported,
/// the call is over after 80 events and one more for each address, at
/// most. A call that waits for nothing is over.
pub proof fn law_call_ends(
    config: ConfigModel,
    cwd: Seq<char>,
    arch: Seq<char>,
    os: Seq<char>,
    files: Seq<Seq<char>>,
    use_cache: bool,
    input: Seq<Seq<char>>,
    events: Seq<Event>,
)
    requires
        config.wf(),
        input.len() <= usize::MAX,
        all_expected(HybridModel::initial(config, cwd, arch, os, files, use_cache, input), events),
    ensures
        events.len() <= unique_of(input).len() + 80,
        ({
            let m = HybridModel::initial(config, cwd, arch, os, files, use_cache, input).after(events);
            (forall|e: Event| !expects(m, e)) ==> m.action() is Finish || m.action() is Fail
        }),
{
    let start = HybridModel::initial(config, cwd, arch, os, files, use_cache, input);
    law_start_is_in_order(config, cwd, arch, os, files, use_cache, input);
    lemma_budget_counts(start, events);
    law_call_keeps_order(start, events);
    let m0 = HybridModel {
        config,
        cwd,
        arch,
        os,
        files,
        use_cache,
        batch: BatchModel::of(input),
        phase: Phase::Cache,
        local_batch: 0,
        daemon: None,
        remote: None,
        local_failure: None,
        remote_failure: None,
    };
    lemma_unique_of(input);
    if m0.batch.requested.len() > 0 && !use_cache {
        lemma_budget_enter_local(m0);
    }
    let m = start.after(events);
    if forall|e: Event| !expects(m, e) {
        lemma_waits_for_something(m);
    }
}

proof fn lemma_budget_counts(m: HybridModel, events: Seq<Event>)
    requires
        m.wf(),
        all_expected(m, events),
    ensures
        budget(m.after(events)) + events.len() <= budget(m),
    decreases events.len(),
{
    if events.len() > 0 {
        lemma_budget_counts(m, events.drop_last());
        law_call_keeps_order(m, events.drop_last());
        law_step_brings_the_end_closer(m.after(events.drop_last()), events.last());
    }
}

/// A call that is not over waits for some event.
proof fn lemma_waits_for_something(m: HybridModel)
    requires
        m.wf(),
        forall|e: Event| !expects(m, e),
    ensures
        m.phase == Phase::Finished || m.phase == Phase::Failed,
{
    match m.phase {
        Phase::Cache => {
            assert(expects(m, Event::CacheRows(None)));
        },
        Phase::OneShot => {
            let detail: String = vstd::pervasive::arbitrary();
            assert(expects(
                m,
                Event::Process(crate::geocoder_oneshot::ProcessOutcome::NotStarted { detail }),
            ));
        },
        Phase::Daemon => {
            let d = m.daemon->0;
            match d.phase {
                DaemonPhase::Probing => {
                    assert(expects(m, Event::Daemon(DaemonEvent::Health(false))));
                },
                DaemonPhase::Starting { serve } => {
                    assert(expects(m, Event::Daemon(DaemonEvent::Spawned { error: None })));
                },
                DaemonPhase::Waiting { serve } => {
                    assert(expects(m, Event::Daemon(DaemonEvent::Health(false))));
                },
                DaemonPhase::Retiring { serve } => {
                    assert(expects(m, Event::Daemon(DaemonEvent::Stopped)));
                },
                DaemonPhase::Asking { owned } => {
                    let detail: String = vstd::pervasive::arbitrary();
                    assert(expects(m, Event::Daemon(DaemonEvent::Answer(Err(detail)))));
                },
                DaemonPhase::Releasing => {
                    assert(expects(m, Event::Daemon(DaemonEvent::Stopped)));
                },
                DaemonPhase::Done => {},
            }
        },
        Phase::StoreLocal => {
            assert(expects(m, Event::Stored));
        },
        Phase::Remote => {
            assert(expects(
                m,
                Event::Remote(Err(crate::geocodio::RemoteFailure::Status { code: 500 })),
            ));
        },
        Phase::StoreRemote => {
            assert(expects(m, Event::Stored));
        },
        Phase::Finished => {},
        Phase::Failed => {},
    }
}

/// Resolving an address twice in succession gives the same coordinates
/// twice. Where a stage of the first call placed the address and the
/// entries of that stage were written to the cache, a second call that
/// reads the entry back answers with the coordinates of the first call,
/// from the cache, and asks no stage for the address.
pub proof fn law_second_call_repeats_the_first(
    first: HybridModel,
    stage: ResultSource,
    cache_before: CacheContents,
    config: ConfigModel,
    cwd: Seq<char>,
    arch: Seq<char>,
    os: Seq<char>,
    files: Seq<Seq<char>>,
    input: Seq<Seq<char>>,
    rows: Vec<CacheEntry>,
    address: Seq<char>,
    events: Seq<Event>,
)
    requires
        first.wf(),
        exists|i: int|
            0 <= i < first.batch.requested.len() && first.batch.requested[i] == address && (
            #[trigger] first.batch.slots[i] matches Some(row) && row.source == Some(stage)),
        config.wf(),
        input.len() <= usize::MAX,
        input.contains(address),
        ({
            let stored = written_after(cache_before, first.batch.entries_from(stage));
            contents_of(rows.deep_view()).contains_key(address) && contents_of(
                rows.deep_view(),
            )[address] == stored[address]
        }),
    ensures
        ({
            let i = choose|i: int|
                0 <= i < first.batch.requested.len() && first.batch.requested[i] == address && (
                #[trigger] first.batch.slots[i] matches Some(row) && row.source == Some(stage));
            let before = first.batch.results()[i];
            let second = HybridModel::initial(config, cwd, arch, os, files, true, input).next(
                Event::CacheRows(Some(rows)),
            ).after(events);
            &&& !asked(second).contains(address)
            &&& forall|j: int|
                0 <= j < second.batch.requested.len() && second.batch.requested[j] == address ==> {
                    let again = #[trigger] second.batch.results()[j];
                    &&& again.address == address
                    &&& again.lat == before.lat
                    &&& again.lon == before.lon
                    &&& again.source == Some(ResultSource::Cache)
                }
        }),
{
    let i = choose|i: int|
        0 <= i < first.batch.requested.len() && first.batch.requested[i] == address && (
        #[trigger] first.batch.slots[i] matches Some(row) && row.source == Some(stage));
    law_placed_rows_are_written(first.batch, stage, cache_before, i);
    law_results_cover_requested(first.batch);
    law_cache_hit_is_final(config, cwd, arch, os, files, input, rows, address, events);
}

/// What is pending only shrinks: whatever is reported, nothing becomes
/// pending that was not pending before.
pub proof fn law_pending_only_shrinks(m: HybridModel, events: Seq<Event>)
    requires
        m.wf(),
    ensures
        forall|a: Seq<char>|
            #[trigger] m.after(events).batch.pending().contains(a) ==> m.batch.pending().contains(
                a,
            ),
        m.after(events).batch.pending().len() <= m.batch.requested.len(),
{
    law_call_keeps_order(m, events);
    lemma_pending(m.batch);
    lemma_pending(m.after(events).batch);
    assert forall|a: Seq<char>| #[trigger]
        m.after(events).batch.pending().contains(a) implies m.batch.pending().contains(a) by {
        let after = m.after(events).batch;
        let i = choose|i: int|
            0 <= i < after.requested.len() && after.requested[i] == a && after.slots[i] is None;
        if m.batch.slots[i] is Some {
            assert(after.slots[i] == m.batch.slots[i]);
        }
        assert(m.batch.requested[i] == a && m.batch.slots[i] is None);
    }
}

/// Whether an event brings no row: the cache could not be read, the
/// one-shot run failed (it was not started, ended with a failure status,
/// printed nothing, or printed what is no list of rows), the request to the
/// daemon failed, or the remote request failed. Every other report of the
/// daemon, and the report of a cache write, brings no row either.
pub open spec fn brings_no_row(event: Event) -> bool {
    match event {
        Event::CacheRows(rows) => rows is None,
        Event::Process(outcome) => oneshot_verdict(outcome) is Err,
        Event::Daemon(DaemonEvent::Answer(answer)) => answer is Err,
        Event::Daemon(_) => true,
        Event::Stored => true,
        Event::Remote(answer) => answer is Err,
    }
}

/// Whether none of `events` brings a row.
pub open spec fn all_stages_fail(events: Seq<Event>) -> bool {
    forall|i: int| 0 <= i < events.len() ==> brings_no_row(#[trigger] events[i])
}

/// What a call is like while no stage has brought a row: no address is
/// placed, and neither session holds rows.
spec fn nothing_placed(m: HybridModel) -> bool {
    &&& m.wf()
    &&& forall|i: int| 0 <= i < m.batch.slots.len() ==> (#[trigger] m.batch.slots[i]) is None
    &&& m.daemon matches Some(d) ==> (d.outcome matches Some(outcome) ==> outcome is Err)
    &&& m.remote matches Some(r) ==> r.rows.len() == 0 && r.offset == 0 && r.batch_size
        == m.config.batch_size
    &&& m.phase != Phase::StoreLocal
    &&& m.phase != Phase::StoreRemote
}

proof fn lemma_nothing_placed_step(m: HybridModel, event: Event)
    requires
        nothing_placed(m),
        brings_no_row(event),
    ensures
        nothing_placed(m.next(event)),
{
    law_step_keeps_order(m, event);
    let empty = Seq::<GeocodeRecord>::empty();
    assert(m.batch.merged(empty, ResultSource::RemoteApi) == m.batch);
    lemma_entries_of_nothing(m.batch, ResultSource::LocalResolver);
    lemma_entries_of_nothing(m.batch, ResultSource::RemoteApi);
    match (m.phase, event) {
        (Phase::Remote, Event::Remote(answer)) => {
            let r = m.remote->0.next(answer);
            assert(r.rows =~= empty);
        },
        _ => {},
    }
}

proof fn lemma_nothing_placed(m: HybridModel, events: Seq<Event>)
    requires
        nothing_placed(m),
        all_stages_fail(events),
    ensures
        nothing_placed(m.after(events)),
    decreases events.len(),
{
    if events.len() > 0 {
        assert forall|i: int| 0 <= i < events.drop_last().len() implies brings_no_row(
            #[trigger] events.drop_last()[i],
        ) by {
            assert(events.drop_last()[i] == events[i]);
        }
        lemma_nothing_placed(m, events.drop_last());
        assert(events.last() == events[events.len() - 1]);
        lemma_nothing_placed_step(m.after(events.drop_last()), events.last());
    }
}

/// Where every stage fails, every address comes back without coordinates.
/// Whatever the mode, with or without a cache: if the cache cannot be read,
/// the local resolver fails in any of its ways and every remote request
/// fails, the call still ends with an answer, which holds one row for each
/// distinct address of the input, in the order of first occurrence, each
/// without coordinates, source or diagnostics. The call fails only where the
/// credential is blank.
pub proof fn law_failed_stages_leave_every_address_unresolved(
    config: ConfigModel,
    cwd: Seq<char>,
    arch: Seq<char>,
    os: Seq<char>,
    files: Seq<Seq<char>>,
    use_cache: bool,
    input: Seq<Seq<char>>,
    events: Seq<Event>,
)
    requires
        config.wf(),
        input.len() <= usize::MAX,
        all_stages_fail(events),
    ensures
        ({
            let m = HybridModel::initial(config, cwd, arch, os, files, use_cache, input).after(events);
            &&& !(m.action() is StoreCache)
            &&& m.action() matches Step::Finish { results } ==> {
                &&& results.len() == unique_of(input).len()
                &&& addresses_of(results) == unique_of(input)
                &&& forall|i: int|
                    0 <= i < results.len() ==> #[trigger] results[i] == GeocodeRecord::residual(
                        unique_of(input)[i],
                    )
                &&& forall|i: int|
                    0 <= i < results.len() ==> (#[trigger] results[i]).lat is None
                        && results[i].lon is None
            }
            &&& m.action() is Fail ==> (config.api_key matches Some(key) && crate::text::is_blank(
                key,
            ))
            &&& (forall|e: Event| !expects(m, e)) ==> m.action() is Finish || m.action() is Fail
        }),
{
    let start = HybridModel::initial(config, cwd, arch, os, files, use_cache, input);
    law_start_is_in_order(config, cwd, arch, os, files, use_cache, input);
    lemma_unique_of(input);
    let m0 = HybridModel {
        config,
        cwd,
        arch,
        os,
        files,
        use_cache,
        batch: BatchModel::of(input),
        phase: Phase::Cache,
        local_batch: 0,
        daemon: None,
        remote: None,
        local_failure: None,
        remote_failure: None,
    };
    if m0.batch.requested.len() > 0 && !use_cache {
        lemma_enter_local(m0);
        lemma_pending(m0.batch);
        assert(nothing_placed(start)) by {
            lemma_nothing_placed_entry(m0);
        }
    }
    assert(nothing_placed(start));
    lemma_nothing_placed(start, events);
    law_call_keeps_order(start, events);
    let m = start.after(events);
    law_results_cover_requested(m.batch);
    lemma_entries_of_nothing(m.batch, ResultSource::LocalResolver);
    lemma_entries_of_nothing(m.batch, ResultSource::RemoteApi);
    if forall|e: Event| !expects(m, e) {
        lemma_waits_for_something(m);
    }
}

/// Entering the local stage places nothing.
proof fn lemma_nothing_placed_entry(m: HybridModel)
    requires
        m.base_wf(),
        m.daemon is None,
        m.remote is None,
        forall|i: int| 0 <= i < m.batch.slots.len() ==> (#[trigger] m.batch.slots[i]) is None,
    ensures
        nothing_placed(m.enter_local()),
{
    lemma_enter_local(m);
    lemma_entries_of_nothing(m.batch, ResultSource::LocalResolver);
    lemma_entries_of_nothing(m.batch, ResultSource::RemoteApi);
}

/// A batch in which nothing is placed has no cache entries to write.
proof fn lemma_entries_of_nothing(b: BatchModel, source: ResultSource)
    requires
        forall|i: int| 0 <= i < b.slots.len() ==> (#[trigger] b.slots[i]) is None,
    ensures
        b.entries_from(source).len() == 0,
    decreases b.slots.len(),
{
    if b.slots.len() > 0 {
        let shorter = BatchModel { slots: b.slots.drop_last(), ..b };
        assert forall|i: int| 0 <= i < shorter.slots.len() implies (
        #[trigger] shorter.slots[i]) is None by {
            assert(shorter.slots[i] == b.slots[i]);
        }
        lemma_entries_of_nothing(shorter, source);
        assert(b.slots.last() == b.slots[b.slots.len() - 1]);
    }
}

/// The row that the remote service gives for an address with one place.
pub open spec fn remote_hit(address: Seq<char>, place: crate::geocodio::Location) -> GeocodeRecord {
    GeocodeRecord {
        address,
        lat: Some(place.lat),
        lon: Some(place.lng),
        source: Some(ResultSource::RemoteApi),
        status: None,
        error: None,
    }
}

/// The cache entry of an address that the remote service placed.
pub open spec fn remote_entry(address: Seq<char>, place: crate::geocodio::Location) -> crate::geocode_cache::CacheEntryModel {
    crate::geocode_cache::CacheEntryModel {
        address,
        location: CachedLocation {
            lat: place.lat,
            lon: place.lng,
            source: ResultSource::RemoteApi.tag(),
        },
    }
}

/// Two distinct addresses are asked as they are given, the first in the
/// first place and the second in the second.
proof fn lemma_two_addresses(first: Seq<char>, second: Seq<char>)
    requires
        first != second,
    ensures
        unique_of(seq![first, second]) == seq![first, second],
        crate::resolution::index_in(seq![first, second], first) == Some(0int),
        crate::resolution::index_in(seq![first, second], second) == Some(1int),
{
    let input = seq![first, second];
    let one = seq![first];
    assert(input.drop_last() == one);
    assert(one.drop_last() == Seq::<Seq<char>>::empty());
    assert(unique_of(one.drop_last()) == Seq::<Seq<char>>::empty());
    assert(unique_of(one) == one);
    assert(!one.contains(second));
    assert(unique_of(input) == one.push(second));
    assert(one.push(second) == input);
    assert(crate::resolution::index_in(one.drop_last(), first) is None);
    assert(crate::resolution::index_in(one.drop_last(), second) is None);
    assert(crate::resolution::index_in(one, first) == Some(0int));
    assert(crate::resolution::index_in(one, second) is None);
}

/// Of two addresses with nothing placed, both are pending.
proof fn lemma_pair_pending(b: BatchModel)
    requires
        b.requested.len() == 2,
        b.slots.len() == 2,
        b.slots[0] is None,
        b.slots[1] is None,
    ensures
        b.pending() == b.requested,
{
    let b1 = BatchModel { requested: b.requested.drop_last(), slots: b.slots.drop_last() };
    let b0 = BatchModel { requested: b1.requested.drop_last(), slots: b1.slots.drop_last() };
    assert(b0.pending() == Seq::<Seq<char>>::empty());
    assert(b1.slots.last() == b.slots[0]);
    assert(b1.requested.last() == b.requested[0]);
    assert(b1.pending() == seq![b.requested[0]]);
    assert(b.slots.last() == b.slots[1]);
    assert(b.pending() == seq![b.requested[0]].push(b.requested[1]));
    assert(b.pending() =~= b.requested);
}

/// Of two pending addresses, an answer with a place for the first and none
/// for the second places the first and leaves the second.
proof fn lemma_pair_merged(
    b: BatchModel,
    first: Seq<char>,
    second: Seq<char>,
    place: crate::geocodio::Location,
)
    requires
        first != second,
        b.requested == seq![first, second],
        b.slots.len() == 2,
        b.slots[0] is None,
        b.slots[1] is None,
    ensures
        b.merged(
            seq![remote_hit(first, place), GeocodeRecord::residual(second)],
            ResultSource::RemoteApi,
        ) == (BatchModel {
            requested: b.requested,
            slots: seq![Some(remote_hit(first, place)), None::<GeocodeRecord>],
        }),
{
    lemma_two_addresses(first, second);
    let rows = seq![remote_hit(first, place), GeocodeRecord::residual(second)];
    let one = seq![remote_hit(first, place)];
    assert(rows.drop_last() == one);
    assert(one.drop_last() == Seq::<GeocodeRecord>::empty());
    assert(b.merged(one.drop_last(), ResultSource::RemoteApi) == b);
    let placed = b.place(remote_hit(first, place), ResultSource::RemoteApi);
    assert(b.merged(one, ResultSource::RemoteApi) == placed);
    assert(placed.slots =~= seq![Some(remote_hit(first, place)), None::<GeocodeRecord>]);
    assert(placed.place(GeocodeRecord::residual(second), ResultSource::RemoteApi) == placed);
}

/// Where the first of two addresses is placed by the remote service and the
/// second is not, one cache entry is to be written and the answer holds the
/// row placed and the row that reports the second as not placed.
proof fn lemma_pair_outcome(
    b: BatchModel,
    first: Seq<char>,
    second: Seq<char>,
    place: crate::geocodio::Location,
)
    requires
        b.requested == seq![first, second],
        b.slots == seq![Some(remote_hit(first, place)), None::<GeocodeRecord>],
    ensures
        b.entries_from(ResultSource::RemoteApi) == seq![remote_entry(first, place)],
        b.results() == seq![remote_hit(first, place), GeocodeRecord::residual(second)],
{
    let shorter = BatchModel { slots: b.slots.drop_last(), ..b };
    let shortest = BatchModel { slots: shorter.slots.drop_last(), ..shorter };
    assert(shortest.entries_from(ResultSource::RemoteApi) == Seq::<
        crate::geocode_cache::CacheEntryModel,
    >::empty());
    assert(shorter.slots.last() == b.slots[0]);
    assert(shorter.entries_from(ResultSource::RemoteApi) =~= seq![remote_entry(first, place)]);
    assert(b.slots.last() == b.slots[1]);
    assert(b.results() =~= seq![remote_hit(first, place), GeocodeRecord::residual(second)]);
}

/// The rows of an answer with a place for the first address and none for
/// the second.
proof fn lemma_pair_rows(
    entries: Seq<crate::geocodio::RemoteEntryModel>,
    first: Seq<char>,
    second: Seq<char>,
    place: crate::geocodio::Location,
)
    requires
        entries == seq![
            crate::geocodio::RemoteEntryModel { query: first, candidates: seq![place] },
            crate::geocodio::RemoteEntryModel { query: second, candidates: Seq::empty() },
        ],
    ensures
        crate::geocodio::remote_rows(entries) == seq![
            remote_hit(first, place),
            GeocodeRecord::residual(second),
        ],
{
    assert(crate::geocodio::remote_rows(entries) =~= seq![
        remote_hit(first, place),
        GeocodeRecord::residual(second),
    ]);
}

/// A call for two distinct addresses that has found nothing in the cache
/// and got no row from the local stage, and now asks the remote service,
/// has both addresses pending and sends both.
#[verifier::rlimit(30)]
proof fn lemma_pair_reaches_remote(
    config: ConfigModel,
    cwd: Seq<char>,
    arch: Seq<char>,
    os: Seq<char>,
    files: Seq<Seq<char>>,
    first: Seq<char>,
    second: Seq<char>,
    cached: Vec<CacheEntry>,
    local: Seq<Event>,
)
    requires
        config.wf(),
        first != second,
        cached.deep_view().len() == 0,
        all_stages_fail(local),
        HybridModel::initial(config, cwd, arch, os, files, true, seq![first, second]).next(
            Event::CacheRows(Some(cached)),
        ).after(local).phase == Phase::Remote,
    ensures
        ({
            let asking = HybridModel::initial(
                config,
                cwd,
                arch,
                os,
                files,
                true,
                seq![first, second],
            ).next(Event::CacheRows(Some(cached))).after(local);
            &&& nothing_placed(asking)
            &&& asking.use_cache
            &&& asking.config == config
            &&& asking.batch.requested == seq![first, second]
            &&& asking.batch.slots.len() == 2
            &&& asking.batch.pending() == seq![first, second]
        }),
{
    let input = seq![first, second];
    let start = HybridModel::initial(config, cwd, arch, os, files, true, input);
    law_start_is_in_order(config, cwd, arch, os, files, true, input);
    lemma_two_addresses(first, second);
    let looked = start.next(Event::CacheRows(Some(cached)));
    assert(contents_of(cached.deep_view()) == Map::<Seq<char>, CachedLocation>::empty());
    assert(start.batch.cache_filled(contents_of(cached.deep_view())).slots =~= start.batch.slots);
    let unread = HybridModel {
        batch: start.batch.cache_filled(contents_of(cached.deep_view())),
        ..start
    };
    assert(unread.batch == start.batch);
    lemma_nothing_placed_entry(unread);
    assert(looked == unread.enter_local());
    lemma_nothing_placed(looked, local);
    law_step_keeps_order(start, Event::CacheRows(Some(cached)));
    law_call_keeps_order(looked, local);
    let asking = looked.after(local);
    assert(asking.batch.slots[0] is None);
    assert(asking.batch.slots[1] is None);
    lemma_pair_pending(asking.batch);
}

/// The remote service as last resort, step by step. Two distinct addresses
/// are asked, the cache holds neither, and the local stage brings no row,
/// so that the call reaches the remote stage. Then both addresses go out in
/// one request; where the service answers with a place for the first and
/// with none for the second, exactly one entry is written to the cache, the
/// entry of the first address under the tag of the remote service; and the
/// answer holds the first address with these coordinates and that source,
/// and the second without coordinates.
#[verifier::rlimit(30)]
pub proof fn law_remote_fallback_places_what_it_can(
    config: ConfigModel,
    cwd: Seq<char>,
    arch: Seq<char>,
    os: Seq<char>,
    files: Seq<Seq<char>>,
    first: Seq<char>,
    second: Seq<char>,
    place: crate::geocodio::Location,
    cached: Vec<CacheEntry>,
    local: Seq<Event>,
    entries: Vec<crate::geocodio::RemoteEntry>,
)
    requires
        config.wf(),
        config.batch_size >= 2,
        first != second,
        cached.deep_view().len() == 0,
        all_stages_fail(local),
        HybridModel::initial(config, cwd, arch, os, files, true, seq![first, second]).next(
            Event::CacheRows(Some(cached)),
        ).after(local).phase == Phase::Remote,
        entries.deep_view() == seq![
            crate::geocodio::RemoteEntryModel { query: first, candidates: seq![place] },
            crate::geocodio::RemoteEntryModel { query: second, candidates: Seq::empty() },
        ],
    ensures
        ({
            let asking = HybridModel::initial(
                config,
                cwd,
                arch,
                os,
                files,
                true,
                seq![first, second],
            ).next(Event::CacheRows(Some(cached))).after(local);
            let storing = asking.next(Event::Remote(Ok(entries)));
            let done = storing.next(Event::Stored);
            &&& asking.action() matches Step::SendRemote { url, addresses } && addresses == seq![
                first,
                second,
            ]
            &&& storing.action() == (Step::StoreCache {
                entries: seq![remote_entry(first, place)],
            })
            &&& done.action() == (Step::Finish {
                results: seq![remote_hit(first, place), GeocodeRecord::residual(second)],
            })
        }),
{
    lemma_pair_reaches_remote(config, cwd, arch, os, files, first, second, cached, local);
    let asking = HybridModel::initial(config, cwd, arch, os, files, true, seq![first, second]).next(
        Event::CacheRows(Some(cached)),
    ).after(local);
    lemma_pair_answered(asking, first, second, place, entries);
    let storing = asking.next(Event::Remote(Ok(entries)));
    lemma_pair_outcome(storing.batch, first, second, place);
}

/// The step from the request to the cache write, for two pending addresses
/// of which the answer places the first.
#[verifier::rlimit(30)]
proof fn lemma_pair_answered(
    asking: HybridModel,
    first: Seq<char>,
    second: Seq<char>,
    place: crate::geocodio::Location,
    entries: Vec<crate::geocodio::RemoteEntry>,
)
    requires
        nothing_placed(asking),
        asking.phase == Phase::Remote,
        asking.use_cache,
        asking.config.batch_size >= 2,
        first != second,
        asking.batch.requested == seq![first, second],
        asking.batch.slots.len() == 2,
        asking.batch.pending() == seq![first, second],
        entries.deep_view() == seq![
            crate::geocodio::RemoteEntryModel { query: first, candidates: seq![place] },
            crate::geocodio::RemoteEntryModel { query: second, candidates: Seq::empty() },
        ],
    ensures
        asking.action() matches Step::SendRemote { url, addresses } && addresses == seq![
            first,
            second,
        ],
        asking.next(Event::Remote(Ok(entries))).phase == Phase::StoreRemote,
        asking.next(Event::Remote(Ok(entries))).batch == (BatchModel {
            requested: seq![first, second],
            slots: seq![Some(remote_hit(first, place)), None::<GeocodeRecord>],
        }),
{
    let r = asking.remote->0;
    assert(r.addresses == seq![first, second]);
    assert(r.addresses.subrange(0, 2) == seq![first, second]);
    let rows = seq![remote_hit(first, place), GeocodeRecord::residual(second)];
    lemma_pair_rows(entries.deep_view(), first, second, place);
    let answered = r.next(Ok(entries));
    assert(answered.offset == 2);
    assert(answered.rows =~= rows);
    assert(asking.batch.slots[0] is None);
    assert(asking.batch.slots[1] is None);
    lemma_pair_merged(asking.batch, first, second, place);
    let placed = asking.batch.merged(rows, ResultSource::RemoteApi);
    lemma_pair_outcome(placed, first, second, place);
}

/// Without a local resolver on disk and without a daemon that answers, a
/// call that found nothing in the cache turns to the remote service, if a
/// credential is set that is not blank: at once where no daemon is tried,
/// and else as soon as the first health probe of the daemon has failed.
pub proof fn law_without_local_resolver_the_remote_stage_is_next(
    config: ConfigModel,
    cwd: Seq<char>,
    arch: Seq<char>,
    os: Seq<char>,
    input: Seq<Seq<char>>,
    cached: Vec<CacheEntry>,
)
    requires
        config.wf(),
        0 < input.len() <= usize::MAX,
        config.api_key matches Some(key) && !crate::text::is_blank(key),
        cached.deep_view().len() == 0,
    ensures
        ({
            let looked = HybridModel::initial(config, cwd, arch, os, Seq::empty(), true, input).next(
                Event::CacheRows(Some(cached)),
            );
            let probed = looked.next(Event::Daemon(DaemonEvent::Health(false)));
            ||| looked.phase == Phase::Remote
            ||| looked.action() matches Step::Daemon(DaemonStep::Probe { .. }) && probed.phase
                == Phase::Remote
        }),
{
    let files = Seq::<Seq<char>>::empty();
    let start = HybridModel::initial(config, cwd, arch, os, files, true, input);
    law_start_is_in_order(config, cwd, arch, os, files, true, input);
    lemma_unique_of(input);
    assert(input.contains(input[0]));
    assert(unique_of(input).contains(input[0]));
    crate::geocoder_runner::law_no_files_no_resolver(
        config.geocoder_bin,
        cwd,
        crate::geocoder_runner::host_of(arch, os),
    );
    assert(contents_of(cached.deep_view()) == Map::<Seq<char>, CachedLocation>::empty());
    assert(start.batch.cache_filled(contents_of(cached.deep_view())).slots =~= start.batch.slots);
    let unread = HybridModel {
        batch: start.batch.cache_filled(contents_of(cached.deep_view())),
        ..start
    };
    assert(unread.batch == start.batch);
    lemma_pending(unread.batch);
    assert(unread.batch.slots[0] is None);
    lemma_entries_of_nothing(unread.batch, ResultSource::LocalResolver);
    lemma_nothing_placed_entry(unread);
    let looked = unread.enter_local();
    assert(looked == start.next(Event::CacheRows(Some(cached))));
    if looked.phase != Phase::Remote {
        lemma_nothing_placed_step(looked, Event::Daemon(DaemonEvent::Health(false)));
    }
}

} // verus!
