use spatia::geocode_cache::storable_entries;
use spatia::geocoder_daemon::{DaemonAction, DaemonEvent};
use spatia::geocoder_oneshot::{Invocation, ProcessOutcome, ProcessOutput};
use spatia::geocodio::{Location, RemoteEntry, RemoteFailure};
use spatia::resolution::ResolutionBatch;
use spatia::{
    cache_store, Action, AddressCache, CacheEntry, ConfigError, Coordinate, Environment, Event,
    GeocodeMode, GeocodeResult, GeocoderConfig, GeocoderSettings, HybridGeocoder, LocalError,
    Phase, ResultSource,
};

fn coord(value: f64) -> Coordinate {
    Coordinate::from_bits(value.to_bits())
}

fn text(value: &str) -> Option<String> {
    Some(value.to_string())
}

fn list(items: &[&str]) -> Vec<String> {
    items.iter().map(|a| a.to_string()).collect()
}

fn located(address: &str, lat: f64, lon: f64) -> GeocodeResult {
    GeocodeResult {
        address: address.to_string(),
        lat: Some(coord(lat)),
        lon: Some(coord(lon)),
        source: None,
        status: None,
        error: None,
    }
}

fn unresolved(address: &str) -> GeocodeResult {
    GeocodeResult {
        address: address.to_string(),
        lat: None,
        lon: None,
        source: None,
        status: None,
        error: None,
    }
}

fn config(mode: &str, threshold: &str, api_key: Option<&str>, bin: Option<&str>) -> GeocoderConfig {
    GeocoderConfig::from_settings(&GeocoderSettings {
        mode: text(mode),
        daemon_threshold: text(threshold),
        geocoder_bin: bin.map(|b| b.to_string()),
        geocoder_python: None,
        api_key: api_key.map(|k| k.to_string()),
        batch_size: text("2"),
        base_url: None,
    })
    .expect("config")
}

fn env(files: &[&str]) -> Environment {
    Environment {
        cwd: "/work".to_string(),
        arch: "x86_64".to_string(),
        os: "linux".to_string(),
        files: list(files),
    }
}

/// What stands in for the world around a call.
struct World {
    cache: Option<AddressCache>,
    cache_readable: bool,
    oneshot: Option<Result<Vec<GeocodeResult>, &'static str>>,
    daemon_running: bool,
    daemon_starts: bool,
    daemon_rows: Option<Vec<GeocodeResult>>,
    remote: Option<Vec<RemoteEntry>>,
    // What was done.
    lookups: Vec<Vec<String>>,
    processes: Vec<Invocation>,
    daemon_queries: Vec<Vec<String>>,
    spawns: usize,
    stops: usize,
    alive: i64,
    remote_requests: Vec<Vec<String>>,
    stores: Vec<Vec<CacheEntry>>,
}

impl World {
    fn new() -> World {
        World {
            cache: None,
            cache_readable: true,
            oneshot: None,
            daemon_running: false,
            daemon_starts: false,
            daemon_rows: None,
            remote: None,
            lookups: Vec::new(),
            processes: Vec::new(),
            daemon_queries: Vec::new(),
            spawns: 0,
            stops: 0,
            alive: 0,
            remote_requests: Vec::new(),
            stores: Vec::new(),
        }
    }

    fn perform(&mut self, action: Action) -> Event {
        match action {
            Action::LookupCache { addresses } => {
                self.lookups.push(addresses.clone());
                if !self.cache_readable {
                    return Event::CacheRows(None);
                }
                let cache = self.cache.as_ref().expect("a cache");
                let mut rows = Vec::new();
                for a in &addresses {
                    if let Some(hit) = cache.get(a) {
                        rows.push(CacheEntry {
                            address: hit.address,
                            lat: hit.lat.unwrap(),
                            lon: hit.lon.unwrap(),
                            source: "stored".to_string(),
                        });
                    }
                }
                Event::CacheRows(Some(rows))
            }
            Action::RunProcess { invocation } => {
                self.processes.push(invocation);
                match self.oneshot.clone() {
                    None => Event::Process(ProcessOutcome::NotStarted { detail: "no such file".to_string() }),
                    Some(Ok(rows)) => Event::Process(ProcessOutcome::Exited {
                        output: ProcessOutput {
                            success: true,
                            status: "exit status: 0".to_string(),
                            stdout: b"[...]".to_vec(),
                            stderr: String::new(),
                        },
                        rows: Ok(rows),
                    }),
                    Some(Err(stderr)) => Event::Process(ProcessOutcome::Exited {
                        output: ProcessOutput {
                            success: false,
                            status: "exit status: 1".to_string(),
                            stdout: Vec::new(),
                            stderr: stderr.to_string(),
                        },
                        rows: Err("EOF".to_string()),
                    }),
                }
            }
            Action::Daemon(DaemonAction::Probe { .. }) => {
                Event::Daemon(DaemonEvent::Health(self.daemon_running || (self.alive > 0 && self.daemon_starts)))
            }
            Action::Daemon(DaemonAction::Spawn { .. }) => {
                self.spawns += 1;
                self.alive += 1;
                Event::Daemon(DaemonEvent::Spawned { error: None })
            }
            Action::Daemon(DaemonAction::Stop) => {
                self.stops += 1;
                self.alive -= 1;
                Event::Daemon(DaemonEvent::Stopped)
            }
            Action::Daemon(DaemonAction::Query { addresses, .. }) => {
                self.daemon_queries.push(addresses);
                match self.daemon_rows.clone() {
                    Some(rows) => Event::Daemon(DaemonEvent::Answer(Ok(rows))),
                    None => Event::Daemon(DaemonEvent::Answer(Err("connection refused".to_string()))),
                }
            }
            Action::Daemon(DaemonAction::Done { .. }) => panic!("a finished session is not handed out"),
            Action::StoreCache { entries } => {
                self.stores.push(entries.clone());
                if let Some(cache) = self.cache.as_mut() {
                    for e in entries {
                        cache.upsert(e);
                    }
                }
                Event::Stored
            }
            Action::SendRemote { addresses, .. } => {
                self.remote_requests.push(addresses.clone());
                match &self.remote {
                    None => Event::Remote(Err(RemoteFailure::Transport { detail: "offline".to_string() })),
                    Some(known) => Event::Remote(Ok(addresses
                        .iter()
                        .map(|a| {
                            known.iter().find(|e| &e.query == a).cloned().unwrap_or(RemoteEntry {
                                query: a.clone(),
                                candidates: Vec::new(),
                            })
                        })
                        .collect())),
                }
            }
            Action::Finish { .. } | Action::Fail { .. } => panic!("the call is over"),
        }
    }

    fn resolve(
        &mut self,
        config: GeocoderConfig,
        env: Environment,
        addresses: &[&str],
    ) -> Result<Vec<GeocodeResult>, ConfigError> {
        let use_cache = self.cache.is_some();
        let mut g = HybridGeocoder::start(config, env, use_cache, &list(addresses));
        for _ in 0..10_000 {
            match g.action() {
                Action::Finish { results } => {
                    assert!(g.is_over());
                    assert_eq!(self.alive, 0, "no process of the call may outlive it");
                    return Ok(results);
                }
                Action::Fail { error } => {
                    assert!(g.is_over());
                    assert_eq!(self.alive, 0, "no process of the call may outlive it");
                    return Err(error);
                }
                action => {
                    let event = self.perform(action);
                    g.handle(event);
                }
            }
        }
        panic!("the call must come to an end");
    }
}

fn remote_hit(address: &str, lat: f64, lng: f64) -> RemoteEntry {
    RemoteEntry {
        query: address.to_string(),
        candidates: vec![Location { lat: coord(lat), lng: coord(lng) }],
    }
}

fn addresses_of(rows: &[GeocodeResult]) -> Vec<&str> {
    rows.iter().map(|r| r.address.as_str()).collect()
}

#[test]
fn remote_fallback_resolves_what_it_can_and_caches_it() {
    let mut world = World::new();
    world.cache = Some(AddressCache::new());
    world.remote = Some(vec![remote_hit("100 Main St", 38.5, -77.25)]);
    let results = world
        .resolve(
            config("auto", "100", Some("key"), None),
            env(&[]),
            &["100 Main St", "200 Main St"],
        )
        .expect("the call does not fail");

    assert_eq!(
        results,
        vec![
            GeocodeResult {
                address: "100 Main St".to_string(),
                lat: Some(coord(38.5)),
                lon: Some(coord(-77.25)),
                source: Some(ResultSource::RemoteApi),
                status: None,
                error: None,
            },
            GeocodeResult {
                address: "200 Main St".to_string(),
                lat: None,
                lon: None,
                source: None,
                status: None,
                error: None,
            },
        ]
    );
    assert_eq!(results[0].source.unwrap().as_str(), "remote-api");
    // The cache holds exactly one new entry.
    let cache = world.cache.as_ref().unwrap();
    assert_eq!(cache.len(), 1);
    assert_eq!(cache.get("100 Main St").unwrap().lat, Some(coord(38.5)));
    assert_eq!(cache.get("200 Main St"), None);
    assert_eq!(
        world.stores,
        vec![vec![CacheEntry {
            address: "100 Main St".to_string(),
            lat: coord(38.5),
            lon: coord(-77.25),
            source: "remote-api".to_string(),
        }]]
    );
    assert_eq!(world.lookups, vec![list(&["100 Main St", "200 Main St"])]);
    assert_eq!(world.remote_requests, vec![list(&["100 Main St", "200 Main St"])]);
    assert!(world.processes.is_empty());
    assert_eq!(world.spawns, 0);
}

#[test]
fn every_distinct_address_is_answered_once() {
    let cases: Vec<Vec<&str>> = vec![
        vec!["a"],
        vec!["a", "a", "a"],
        vec!["b", "a", "b", "c", "a"],
        vec!["", " ", ""],
    ];
    for mode in ["oneshot", "daemon", "auto"] {
        for input in &cases {
            // Every stage fails or returns rows nobody asked for.
            let mut world = World::new();
            world.cache = Some(AddressCache::new());
            world.cache_readable = false;
            world.oneshot = Some(Ok(vec![located("stranger", 1.0, 1.0), unresolved("a")]));
            world.daemon_running = true;
            world.daemon_rows = Some(vec![located("other", 2.0, 2.0), located("other", 3.0, 3.0)]);
            world.remote = None;
            let results = world
                .resolve(config(mode, "2", Some("key"), Some("/opt/geo")), env(&["/opt/geo"]), input)
                .expect("the call does not fail");
            let mut expected: Vec<&str> = Vec::new();
            for a in input {
                if !expected.contains(a) {
                    expected.push(a);
                }
            }
            assert_eq!(addresses_of(&results), expected, "mode {} input {:?}", mode, input);
            assert!(results.iter().all(|r| r.lat.is_some() == r.lon.is_some()));
            assert!(results.iter().all(|r| !r.is_resolved() && r.source.is_none()));
        }
    }
}

#[test]
fn empty_batch_is_answered_without_doing_anything() {
    let mut world = World::new();
    world.cache = Some(AddressCache::new());
    let results = world
        .resolve(config("auto", "100", Some("key"), None), env(&[]), &[])
        .expect("the call does not fail");
    assert!(results.is_empty());
    assert!(world.lookups.is_empty());
    assert!(world.remote_requests.is_empty());
}

#[test]
fn stage_rows_are_merged_first_come_first_served() {
    let mut world = World::new();
    world.oneshot = Some(Ok(vec![
        located("b", 2.0, 2.5),
        GeocodeResult { lon: None, ..located("a", 9.0, 9.0) },
        located("b", 7.0, 7.0),
        located("zzz", 1.0, 1.0),
    ]));
    world.remote = Some(vec![remote_hit("a", 1.0, 1.5), remote_hit("b", 8.0, 8.0)]);
    let results = world
        .resolve(
            config("oneshot", "100", Some("key"), Some("/opt/geo")),
            env(&["/opt/geo"]),
            &["a", "b", "c"],
        )
        .expect("the call does not fail");
    assert_eq!(addresses_of(&results), vec!["a", "b", "c"]);
    assert_eq!(results[0].lat, Some(coord(1.0)));
    assert_eq!(results[0].source, Some(ResultSource::RemoteApi));
    assert_eq!(results[1].lat, Some(coord(2.0)));
    assert_eq!(results[1].lon, Some(coord(2.5)));
    assert_eq!(results[1].source, Some(ResultSource::LocalResolver));
    assert_eq!(results[1].source.unwrap().as_str(), "local-resolver");
    assert_eq!(results[2], unresolved("c"));
    // The remote service is asked for what the local resolver left open, in
    // chunks of two.
    assert_eq!(world.remote_requests, vec![list(&["a", "c"])]);
}

#[test]
fn second_call_is_answered_from_the_cache() {
    let mut world = World::new();
    world.cache = Some(AddressCache::new());
    world.oneshot = Some(Ok(vec![located("a", 1.25, 2.5)]));
    world.remote = Some(vec![remote_hit("b", 3.0, 4.0)]);
    let first = world
        .resolve(
            config("oneshot", "100", Some("key"), Some("/opt/geo")),
            env(&["/opt/geo"]),
            &["a", "b"],
        )
        .expect("first call");
    assert_eq!(first[0].source, Some(ResultSource::LocalResolver));
    assert_eq!(first[1].source, Some(ResultSource::RemoteApi));
    assert_eq!(world.processes.len(), 1);
    assert_eq!(world.remote_requests.len(), 1);
    assert_eq!(world.stores.len(), 2);

    let second = world
        .resolve(
            config("oneshot", "100", Some("key"), Some("/opt/geo")),
            env(&["/opt/geo"]),
            &["a", "b"],
        )
        .expect("second call");
    assert_eq!(second[0].lat, first[0].lat);
    assert_eq!(second[0].lon, first[0].lon);
    assert_eq!(second[1].lat, first[1].lat);
    assert_eq!(second[1].lon, first[1].lon);
    assert_eq!(second[0].source, Some(ResultSource::Cache));
    assert_eq!(second[0].source.unwrap().as_str(), "cache");
    assert_eq!(second[1].source, Some(ResultSource::Cache));
    // No stage ran again.
    assert_eq!(world.processes.len(), 1);
    assert_eq!(world.remote_requests.len(), 1);
    assert_eq!(world.stores.len(), 2);
}

#[test]
fn cache_hits_are_not_asked_again() {
    let mut world = World::new();
    let mut cache = AddressCache::new();
    cache_store(&mut cache, &[located("b", 5.0, 6.0)], "local-resolver");
    world.cache = Some(cache);
    world.oneshot = Some(Ok(vec![located("b", 0.0, 0.0), located("c", 7.0, 8.0)]));
    world.remote = Some(vec![remote_hit("b", 0.0, 0.0)]);
    let results = world
        .resolve(
            config("oneshot", "100", Some("key"), Some("/opt/geo")),
            env(&["/opt/geo"]),
            &["a", "b", "c"],
        )
        .expect("the call does not fail");
    assert_eq!(results[1].lat, Some(coord(5.0)));
    assert_eq!(results[1].source, Some(ResultSource::Cache));
    assert_eq!(world.processes[0].args, list(&["a", "c"]));
    assert_eq!(world.remote_requests, vec![list(&["a"])]);
    // Only what the local resolver placed is written.
    assert_eq!(world.stores.len(), 1);
    assert_eq!(world.stores[0].len(), 1);
    assert_eq!(world.stores[0][0].address, "c");
    assert_eq!(world.stores[0][0].source, "local-resolver");
}

#[test]
fn auto_below_the_cutoff_runs_one_shot_and_no_daemon() {
    let mut world = World::new();
    world.oneshot = Some(Ok(vec![located("a", 1.0, 2.0)]));
    world.daemon_running = true;
    world.daemon_rows = Some(vec![located("b", 3.0, 4.0)]);
    let results = world
        .resolve(config("auto", "3", None, Some("/opt/geo")), env(&["/opt/geo"]), &["a", "b"])
        .expect("the call does not fail");
    assert_eq!(world.processes.len(), 1);
    assert!(world.daemon_queries.is_empty());
    assert_eq!(world.spawns, 0);
    assert!(results[0].is_resolved());
    assert!(!results[1].is_resolved());
}

#[test]
fn auto_below_the_cutoff_falls_back_to_the_daemon_when_one_shot_fails() {
    let mut world = World::new();
    world.oneshot = Some(Err("traceback"));
    world.daemon_running = true;
    world.daemon_rows = Some(vec![located("b", 3.0, 4.0)]);
    let results = world
        .resolve(config("auto", "3", None, Some("/opt/geo")), env(&["/opt/geo"]), &["a", "b"])
        .expect("the call does not fail");
    assert_eq!(world.processes.len(), 1);
    assert_eq!(world.daemon_queries, vec![list(&["a", "b"])]);
    assert!(!results[0].is_resolved());
    assert_eq!(results[1].lat, Some(coord(3.0)));
    assert_eq!(results[1].source, Some(ResultSource::LocalResolver));
}

#[test]
fn auto_at_the_cutoff_goes_to_the_daemon_directly() {
    for n in [3usize, 4] {
        let input: Vec<String> = (0..n).map(|i| format!("a{}", i)).collect();
        let refs: Vec<&str> = input.iter().map(|s| s.as_str()).collect();
        let mut world = World::new();
        world.oneshot = Some(Ok(vec![located("a0", 1.0, 2.0)]));
        world.daemon_running = true;
        world.daemon_rows = Some(vec![located("a1", 3.0, 4.0)]);
        let results = world
            .resolve(config("auto", "3", None, Some("/opt/geo")), env(&["/opt/geo"]), &refs)
            .expect("the call does not fail");
        assert!(world.processes.is_empty());
        assert_eq!(world.daemon_queries, vec![input.clone()]);
        assert!(!results[0].is_resolved());
        assert!(results[1].is_resolved());
    }
}

#[test]
fn one_shot_mode_never_uses_the_daemon() {
    let mut world = World::new();
    world.oneshot = Some(Err("boom"));
    world.daemon_running = true;
    world.daemon_rows = Some(vec![located("a", 3.0, 4.0)]);
    let results = world
        .resolve(config("oneshot", "1", None, Some("/opt/geo")), env(&["/opt/geo"]), &["a"])
        .expect("the call does not fail");
    assert_eq!(world.processes.len(), 1);
    assert!(world.daemon_queries.is_empty());
    assert_eq!(results, vec![unresolved("a")]);
}

#[test]
fn nothing_available_gives_rows_without_coordinates() {
    for mode in ["oneshot", "daemon", "auto"] {
        let mut world = World::new();
        let results = world
            .resolve(config(mode, "100", None, None), env(&[]), &["a", "b", "a"])
            .expect("the call does not fail");
        assert_eq!(results, vec![unresolved("a"), unresolved("b")]);
        assert!(world.processes.is_empty());
        assert_eq!(world.spawns, 0);
        assert!(world.remote_requests.is_empty());
    }
}

#[test]
fn local_failure_is_kept_for_diagnostics() {
    let mut g = HybridGeocoder::start(config("oneshot", "100", None, None), env(&[]), false, &list(&["a"]));
    assert!(g.is_over());
    assert_eq!(g.local_failure(), Some(LocalError::RunnerNotFound));
    assert_eq!(g.remote_failure(), None);
    match g.action() {
        Action::Finish { results } => assert_eq!(results, vec![unresolved("a")]),
        other => panic!("unexpected action {:?}", other),
    }
    // A finished call takes no more events.
    g.handle(Event::Stored);
    g.handle(Event::CacheRows(None));
    assert_eq!(g.phase, Phase::Finished);
}

#[test]
fn remote_failure_is_swallowed_and_kept_for_diagnostics() {
    let mut g = HybridGeocoder::start(
        config("oneshot", "100", Some("key"), None),
        env(&[]),
        false,
        &list(&["a", "b", "c"]),
    );
    match g.action() {
        Action::SendRemote { url, addresses } => {
            assert_eq!(url, "https://api.geocodio.com/v1.7/geocode?api_key=key&limit=1");
            assert_eq!(addresses, list(&["a", "b"]));
        }
        other => panic!("unexpected action {:?}", other),
    }
    g.handle(Event::Remote(Ok(vec![RemoteEntry {
        query: "a".to_string(),
        candidates: vec![Location { lat: coord(1.0), lng: coord(2.0) }],
    }])));
    match g.action() {
        Action::SendRemote { addresses, .. } => assert_eq!(addresses, list(&["c"])),
        other => panic!("unexpected action {:?}", other),
    }
    g.handle(Event::Remote(Err(RemoteFailure::Malformed { detail: "not json".to_string() })));
    assert_eq!(
        g.remote_failure(),
        Some(RemoteFailure::Malformed { detail: "not json".to_string() })
    );
    match g.action() {
        // A failed request voids the whole stage.
        Action::Finish { results } => {
            assert_eq!(results, vec![unresolved("a"), unresolved("b"), unresolved("c")])
        }
        other => panic!("unexpected action {:?}", other),
    }
}

#[test]
fn blank_credential_fails_the_call_when_the_remote_stage_is_needed() {
    let mut world = World::new();
    let err = world
        .resolve(config("oneshot", "100", Some("  "), None), env(&[]), &["a"])
        .expect_err("a blank credential is a configuration error");
    assert_eq!(err, ConfigError::EmptyCredential);
    assert!(world.remote_requests.is_empty());

    // Where nothing is left for the remote stage, the credential is not looked at.
    let mut world = World::new();
    world.oneshot = Some(Ok(vec![located("a", 1.0, 2.0)]));
    let results = world
        .resolve(config("oneshot", "100", Some("  "), Some("/opt/geo")), env(&["/opt/geo"]), &["a"])
        .expect("the call does not fail");
    assert!(results[0].is_resolved());
}

#[test]
fn unreadable_cache_counts_as_all_misses() {
    let mut world = World::new();
    let mut cache = AddressCache::new();
    cache_store(&mut cache, &[located("a", 5.0, 6.0)], "local-resolver");
    world.cache = Some(cache);
    world.cache_readable = false;
    world.oneshot = Some(Ok(vec![located("a", 1.0, 2.0)]));
    let results = world
        .resolve(config("oneshot", "100", None, Some("/opt/geo")), env(&["/opt/geo"]), &["a"])
        .expect("the call does not fail");
    assert_eq!(results[0].lat, Some(coord(1.0)));
    assert_eq!(results[0].source, Some(ResultSource::LocalResolver));
    assert_eq!(world.processes[0].args, list(&["a"]));
}

#[test]
fn without_a_cache_nothing_is_looked_up_or_stored() {
    let mut world = World::new();
    world.oneshot = Some(Ok(vec![located("a", 1.0, 2.0)]));
    world.remote = Some(vec![remote_hit("b", 3.0, 4.0)]);
    let results = world
        .resolve(
            config("oneshot", "100", Some("key"), Some("/opt/geo")),
            env(&["/opt/geo"]),
            &["a", "b"],
        )
        .expect("the call does not fail");
    assert!(results.iter().all(|r| r.is_resolved()));
    assert!(world.lookups.is_empty());
    assert!(world.stores.is_empty());
}

#[test]
fn a_daemon_started_by_the_call_is_stopped_on_every_path() {
    // The request succeeds.
    let mut world = World::new();
    world.daemon_starts = true;
    world.daemon_rows = Some(vec![located("a", 1.0, 2.0)]);
    let results = world
        .resolve(config("daemon", "100", None, Some("/opt/geo")), env(&["/opt/geo"]), &["a"])
        .expect("the call does not fail");
    assert!(results[0].is_resolved());
    assert_eq!((world.spawns, world.stops, world.alive), (1, 1, 0));

    // The request fails.
    let mut world = World::new();
    world.daemon_starts = true;
    world.daemon_rows = None;
    let results = world
        .resolve(config("daemon", "100", None, Some("/opt/geo")), env(&["/opt/geo"]), &["a"])
        .expect("the call does not fail");
    assert!(!results[0].is_resolved());
    assert_eq!((world.spawns, world.stops, world.alive), (1, 1, 0));

    // The daemon never gets ready: two launches, two stops.
    let mut world = World::new();
    world.daemon_starts = false;
    let results = world
        .resolve(config("daemon", "100", None, Some("/opt/geo")), env(&["/opt/geo"]), &["a"])
        .expect("the call does not fail");
    assert!(!results[0].is_resolved());
    assert_eq!((world.spawns, world.stops, world.alive), (2, 2, 0));
    assert!(world.daemon_queries.is_empty());
}

#[test]
fn a_daemon_found_running_is_left_running() {
    let mut world = World::new();
    world.daemon_running = true;
    world.daemon_rows = Some(vec![located("a", 1.0, 2.0)]);
    let results = world
        .resolve(config("daemon", "100", None, None), env(&[]), &["a"])
        .expect("the call does not fail");
    assert!(results[0].is_resolved());
    assert_eq!((world.spawns, world.stops), (0, 0));
    assert_eq!(world.daemon_queries, vec![list(&["a"])]);
}

#[test]
fn local_rows_are_cached_before_the_remote_stage() {
    let mut world = World::new();
    world.cache = Some(AddressCache::new());
    world.daemon_running = true;
    world.daemon_rows = Some(vec![located("a", 1.0, 2.0), unresolved("b")]);
    world.remote = None;
    let results = world
        .resolve(config("daemon", "100", Some("key"), None), env(&[]), &["a", "b"])
        .expect("the call does not fail");
    assert!(results[0].is_resolved());
    assert!(!results[1].is_resolved());
    assert_eq!(world.stores.len(), 1);
    assert_eq!(world.stores[0][0].address, "a");
    assert_eq!(world.cache.as_ref().unwrap().len(), 1);
    assert_eq!(world.remote_requests, vec![list(&["b"])]);
}

#[test]
fn batch_keeps_first_occurrences_and_placed_rows() {
    let mut batch = ResolutionBatch::new(&list(&["b", "a", "b", "c"]));
    assert_eq!(batch.len(), 3);
    assert_eq!(batch.pending(), list(&["b", "a", "c"]));
    batch.merge(&[located("a", 1.0, 2.0)], ResultSource::LocalResolver);
    assert_eq!(batch.pending(), list(&["b", "c"]));
    batch.merge(&[located("a", 9.0, 9.0), located("c", 3.0, 4.0)], ResultSource::RemoteApi);
    assert_eq!(batch.pending(), list(&["b"]));
    let results = batch.results();
    assert_eq!(results[0], unresolved("b"));
    assert_eq!(results[1].lat, Some(coord(1.0)));
    assert_eq!(results[1].source, Some(ResultSource::LocalResolver));
    assert_eq!(results[2].source, Some(ResultSource::RemoteApi));
    assert_eq!(batch.entries(ResultSource::LocalResolver).len(), 1);
    assert_eq!(batch.entries(ResultSource::RemoteApi)[0].address, "c");
    assert_eq!(batch.entries(ResultSource::Cache).len(), 0);
    assert_eq!(
        storable_entries(&results, "x").iter().map(|e| e.address.clone()).collect::<Vec<_>>(),
        list(&["a", "c"])
    );
}

#[test]
fn mode_is_read_from_the_configuration() {
    assert_eq!(config("OneShot", "1", None, None).mode, GeocodeMode::OneShot);
    assert_eq!(config(" auto ", "1", None, None).mode, GeocodeMode::Auto);
}

#[test]
fn both_stages_failing_leaves_rows_without_coordinates() {
    // Every way in which the local stage fails, with a remote request that
    // fails as well.
    let local_failures: Vec<(&str, Option<Result<Vec<GeocodeResult>, &'static str>>, bool)> = vec![
        ("oneshot", None, false),
        ("oneshot", Some(Err("exit 1")), false),
        ("auto", Some(Err("exit 1")), false),
        ("auto", None, true),
        ("daemon", None, false),
        ("daemon", None, true),
    ];
    for (mode, oneshot, daemon_running) in local_failures {
        let mut world = World::new();
        world.oneshot = oneshot;
        world.daemon_running = daemon_running;
        world.daemon_rows = None;
        world.remote = None;
        let results = world
            .resolve(
                config(mode, "100", Some("key"), Some("/opt/geo")),
                env(&["/opt/geo"]),
                &["100 Main St", "200 Main St", "300 Main St"],
            )
            .expect("the call does not fail");
        assert_eq!(
            results,
            vec![unresolved("100 Main St"), unresolved("200 Main St"), unresolved("300 Main St")],
            "mode {}",
            mode
        );
        assert_eq!(world.remote_requests, vec![list(&["100 Main St", "200 Main St"])]);
        assert!(world.stores.is_empty());
        assert_eq!(world.alive, 0);
    }
}

#[test]
fn malformed_and_empty_output_count_as_local_failures() {
    for (stdout, rows) in [(b"".to_vec(), Err("EOF".to_string())), (b"{".to_vec(), Err("EOF".to_string()))] {
        let mut g = HybridGeocoder::start(
            config("oneshot", "100", None, Some("/opt/geo")),
            env(&["/opt/geo"]),
            false,
            &list(&["a"]),
        );
        assert!(matches!(g.action(), Action::RunProcess { .. }));
        g.handle(Event::Process(ProcessOutcome::Exited {
            output: ProcessOutput {
                success: true,
                status: "exit status: 0".to_string(),
                stdout,
                stderr: String::new(),
            },
            rows,
        }));
        assert!(g.local_failure().is_some());
        match g.action() {
            Action::Finish { results } => assert_eq!(results, vec![unresolved("a")]),
            other => panic!("unexpected action {:?}", other),
        }
    }
}
