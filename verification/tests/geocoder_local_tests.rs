use spatia::geocoder_daemon::{
    geocode_endpoint, DaemonAction, DaemonEvent, DaemonPhase, DaemonSession,
    DAEMON_POLL_INTERVAL_MS, DAEMON_STARTUP_TIMEOUT_MS,
};
use spatia::geocoder_oneshot::{
    classify_oneshot, plan_oneshot, Invocation, ProcessOutcome, ProcessOutput,
};
use spatia::geocoder_runner::{
    binary_candidates, has_python_extension, host_triple, interpreter_candidates, join_path,
    resolve_geocoder_binary_path, resolve_geocoder_runner, resolve_interpreter,
    script_candidates, GeocoderRunner,
};
use spatia::{Coordinate, Environment, GeocodeResult, LocalError};

fn env(files: &[&str]) -> Environment {
    Environment {
        cwd: "/work".to_string(),
        arch: "x86_64".to_string(),
        os: "linux".to_string(),
        files: files.iter().map(|f| f.to_string()).collect(),
    }
}

fn text(value: &str) -> Option<String> {
    Some(value.to_string())
}

fn addresses(list: &[&str]) -> Vec<String> {
    list.iter().map(|a| a.to_string()).collect()
}

fn located(address: &str, lat: f64, lon: f64) -> GeocodeResult {
    GeocodeResult {
        address: address.to_string(),
        lat: Some(Coordinate::from_bits(lat.to_bits())),
        lon: Some(Coordinate::from_bits(lon.to_bits())),
        source: None,
        status: Some("ok".to_string()),
        error: None,
    }
}

#[test]
fn host_triple_normalizes_known_platforms() {
    assert_eq!(host_triple("aarch64", "macos"), "aarch64-apple-darwin");
    assert_eq!(host_triple("x86_64", "macos"), "x86_64-apple-darwin");
    assert_eq!(host_triple("x86_64", "linux"), "x86_64-unknown-linux-gnu");
    assert_eq!(host_triple("aarch64", "linux"), "aarch64-unknown-linux-gnu");
    assert_eq!(host_triple("x86_64", "windows"), "x86_64-pc-windows-msvc");
    assert_eq!(host_triple("aarch64", "windows"), "aarch64-apple-darwin");
    assert_eq!(host_triple("riscv64", "linux"), "aarch64-apple-darwin");
    assert_eq!(host_triple("", ""), "aarch64-apple-darwin");
}

#[test]
fn paths_are_joined_with_one_separator() {
    assert_eq!(join_path("/work", "a/b"), "/work/a/b");
    assert_eq!(join_path("/work/", "a/b"), "/work/a/b");
    assert_eq!(join_path("", "a/b"), "a/b");
    assert_eq!(join_path("/", "../x"), "/../x");
}

#[test]
fn python_sources_are_known_by_their_extension() {
    assert!(has_python_extension("main.py"));
    assert!(has_python_extension("/a/b/main.PY"));
    assert!(has_python_extension("/a/b/main.tar.Py"));
    assert!(!has_python_extension("/a/b/main"));
    assert!(!has_python_extension("/a/b.py/main"));
    assert!(!has_python_extension(".py"));
    assert!(!has_python_extension("/a/.py"));
    assert!(!has_python_extension("main.pyc"));
    assert!(!has_python_extension("main.py "));
    assert!(!has_python_extension(""));
    assert!(has_python_extension("..py"));
}

#[test]
fn candidates_follow_the_search_order() {
    assert_eq!(
        script_candidates("/work"),
        vec![
            "/work/../src-python/spatia-geocoder/main.py".to_string(),
            "/work/src-python/spatia-geocoder/main.py".to_string(),
        ]
    );
    assert_eq!(
        binary_candidates("/work", "x86_64-unknown-linux-gnu"),
        vec![
            "/work/../src-python/spatia-geocoder/dist/main".to_string(),
            "/work/src-python/spatia-geocoder/dist/main".to_string(),
            "/work/binaries/spatia-geocoder-x86_64-unknown-linux-gnu".to_string(),
            "/work/src-tauri/binaries/spatia-geocoder-x86_64-unknown-linux-gnu".to_string(),
            "/work/../src-tauri/binaries/spatia-geocoder-x86_64-unknown-linux-gnu".to_string(),
        ]
    );
    assert_eq!(
        interpreter_candidates("/work"),
        vec![
            "/work/../.venv/bin/python".to_string(),
            "/work/.venv/bin/python".to_string(),
            "/work/../../.venv/bin/python".to_string(),
        ]
    );
}

#[test]
fn probe_paths_list_everything_a_search_may_ask() {
    let paths = Environment::probe_paths(&text("/opt/geo"), "/work", "x86_64", "linux");
    assert_eq!(paths.len(), 1 + 2 + 5 + 3);
    assert_eq!(paths[0], "/opt/geo");
    assert_eq!(paths[1], "/work/../src-python/spatia-geocoder/main.py");
    assert_eq!(paths[3], "/work/../src-python/spatia-geocoder/dist/main");
    assert_eq!(paths[10], "/work/../../.venv/bin/python");
    assert_eq!(Environment::probe_paths(&None, "/work", "x86_64", "linux").len(), 10);
}

#[test]
fn explicit_runner_decides_alone() {
    let e = env(&["/opt/geo", "/opt/geo.py", "/work/src-python/spatia-geocoder/main.py"]);
    assert_eq!(
        resolve_geocoder_runner(&text("/opt/geo"), &e),
        Ok(GeocoderRunner::Binary("/opt/geo".to_string()))
    );
    assert_eq!(
        resolve_geocoder_runner(&text("/opt/geo.py"), &e),
        Ok(GeocoderRunner::PythonScript("/opt/geo.py".to_string()))
    );
    let err = resolve_geocoder_runner(&text("/opt/missing"), &e).expect_err("no file");
    assert_eq!(err, LocalError::ExplicitPathNotAFile);
    assert_eq!(err.message(), "SPATIA_GEOCODER_BIN is set but does not point to a file");
}

#[test]
fn runner_search_prefers_scripts_then_binaries() {
    let both = env(&[
        "/work/binaries/spatia-geocoder-x86_64-unknown-linux-gnu",
        "/work/src-python/spatia-geocoder/main.py",
        "/work/../src-python/spatia-geocoder/dist/main",
    ]);
    assert_eq!(
        resolve_geocoder_runner(&None, &both),
        Ok(GeocoderRunner::PythonScript("/work/src-python/spatia-geocoder/main.py".to_string()))
    );
    let binaries = env(&[
        "/work/binaries/spatia-geocoder-x86_64-unknown-linux-gnu",
        "/work/src-python/spatia-geocoder/dist/main",
    ]);
    assert_eq!(
        resolve_geocoder_runner(&None, &binaries),
        Ok(GeocoderRunner::Binary("/work/src-python/spatia-geocoder/dist/main".to_string()))
    );
    let other_host = env(&["/work/binaries/spatia-geocoder-aarch64-apple-darwin"]);
    let err = resolve_geocoder_runner(&None, &other_host).expect_err("nothing");
    assert_eq!(err, LocalError::RunnerNotFound);
    assert_eq!(
        err.message(),
        "Unable to locate geocoder runner. Set SPATIA_GEOCODER_BIN or run package_sidecar.sh"
    );
}

#[test]
fn daemon_binary_must_be_an_executable() {
    let e = env(&["/opt/geo", "/opt/geo.py", "/work/src-tauri/binaries/spatia-geocoder-x86_64-unknown-linux-gnu"]);
    assert_eq!(resolve_geocoder_binary_path(&text("/opt/geo"), &e), Ok("/opt/geo".to_string()));
    let err = resolve_geocoder_binary_path(&text("/opt/geo.py"), &e).expect_err("script");
    assert_eq!(err, LocalError::DaemonNeedsBinary);
    assert_eq!(
        err.message(),
        "Daemon mode requires a packaged geocoder binary, not a Python source file"
    );
    assert_eq!(
        resolve_geocoder_binary_path(&text("/nope"), &e),
        Err(LocalError::ExplicitPathNotAFile)
    );
    assert_eq!(
        resolve_geocoder_binary_path(&None, &e),
        Ok("/work/src-tauri/binaries/spatia-geocoder-x86_64-unknown-linux-gnu".to_string())
    );
    let err = resolve_geocoder_binary_path(&None, &env(&["/work/src-python/spatia-geocoder/main.py"]))
        .expect_err("nothing");
    assert_eq!(err, LocalError::DaemonBinaryNotFound);
    assert_eq!(
        err.message(),
        "Daemon mode requires a packaged geocoder binary. Set SPATIA_GEOCODER_BIN to a built executable."
    );
}

#[test]
fn interpreter_is_override_then_virtual_environment_then_python3() {
    let e = env(&["/work/.venv/bin/python", "/work/../../.venv/bin/python"]);
    assert_eq!(resolve_interpreter(&text("/usr/bin/python3.12"), &e), "/usr/bin/python3.12");
    assert_eq!(resolve_interpreter(&None, &e), "/work/.venv/bin/python");
    assert_eq!(
        resolve_interpreter(&None, &env(&["/work/../.venv/bin/python", "/work/.venv/bin/python"])),
        "/work/../.venv/bin/python"
    );
    assert_eq!(resolve_interpreter(&None, &env(&[])), "python3");
}

#[test]
fn oneshot_runs_a_binary_with_the_addresses() {
    let e = env(&["/opt/geo"]);
    let plan = plan_oneshot(&text("/opt/geo"), &None, &e, &addresses(&["a b", "c"]));
    assert_eq!(
        plan,
        Ok(Invocation { program: "/opt/geo".to_string(), args: addresses(&["a b", "c"]) })
    );
}

#[test]
fn oneshot_runs_a_script_with_the_interpreter() {
    let e = env(&["/work/src-python/spatia-geocoder/main.py", "/work/.venv/bin/python"]);
    let plan = plan_oneshot(&None, &None, &e, &addresses(&["a", "b"]));
    assert_eq!(
        plan,
        Ok(Invocation {
            program: "/work/.venv/bin/python".to_string(),
            args: addresses(&["/work/src-python/spatia-geocoder/main.py", "a", "b"]),
        })
    );
    let plan = plan_oneshot(&None, &text("/usr/bin/python3"), &e, &addresses(&[]));
    assert_eq!(
        plan,
        Ok(Invocation {
            program: "/usr/bin/python3".to_string(),
            args: addresses(&["/work/src-python/spatia-geocoder/main.py"]),
        })
    );
    assert_eq!(
        plan_oneshot(&None, &None, &env(&[]), &addresses(&["a"])),
        Err(LocalError::RunnerNotFound)
    );
}

fn exited(success: bool, stdout: &[u8], stderr: &str, rows: Result<Vec<GeocodeResult>, String>) -> ProcessOutcome {
    ProcessOutcome::Exited {
        output: ProcessOutput {
            success,
            status: if success { "exit status: 0".to_string() } else { "exit status: 2".to_string() },
            stdout: stdout.to_vec(),
            stderr: stderr.to_string(),
        },
        rows,
    }
}

#[test]
fn oneshot_failures_are_told_apart() {
    let failed = classify_oneshot(exited(false, b"[]", "  boom\n", Ok(vec![]))).expect_err("status");
    assert_eq!(
        failed,
        LocalError::ProcessFailed { status: "exit status: 2".to_string(), stderr: "  boom\n".to_string() }
    );
    assert_eq!(
        failed.message(),
        "geocoder one-shot process failed with status exit status: 2: boom"
    );

    let empty = classify_oneshot(exited(true, b"", " warn ", Err("EOF".to_string()))).expect_err("empty");
    assert_eq!(empty, LocalError::EmptyOutput { stderr: " warn ".to_string() });
    assert_eq!(
        empty.message(),
        "geocoder one-shot process returned empty output. Rebuild sidecar binary or use SPATIA_GEOCODER_BIN/SPATIA_GEOCODER_PYTHON. stderr: warn"
    );

    let malformed = classify_oneshot(exited(true, b"{", "", Err("EOF while parsing".to_string())))
        .expect_err("parse");
    assert_eq!(malformed, LocalError::MalformedOutput { detail: "EOF while parsing".to_string() });
    assert_eq!(malformed.message(), "geocoder output is malformed: EOF while parsing");

    let not_started = classify_oneshot(ProcessOutcome::NotStarted { detail: "No such file".to_string() })
        .expect_err("spawn");
    assert_eq!(not_started, LocalError::SpawnFailed { detail: "No such file".to_string() });
    assert_eq!(not_started.message(), "geocoder process could not be started: No such file");
}

#[test]
fn oneshot_failure_status_comes_before_empty_output() {
    let err = classify_oneshot(exited(false, b"", "bad", Err("EOF".to_string()))).expect_err("status");
    assert!(matches!(err, LocalError::ProcessFailed { .. }));
}

#[test]
fn oneshot_success_gives_the_rows() {
    let rows = vec![located("a", 1.0, 2.0)];
    assert_eq!(
        classify_oneshot(exited(true, b"[{}]", "", Ok(rows.clone()))),
        Ok(rows)
    );
    assert_eq!(classify_oneshot(exited(true, b"[]", "", Ok(vec![]))), Ok(vec![]));
}

#[test]
fn endpoint_drops_trailing_slashes() {
    assert_eq!(geocode_endpoint("http://127.0.0.1:7788"), "http://127.0.0.1:7788/geocode");
    assert_eq!(geocode_endpoint("http://127.0.0.1:7788/"), "http://127.0.0.1:7788/geocode");
    assert_eq!(geocode_endpoint("http://h/api///"), "http://h/api/geocode");
    assert_eq!(geocode_endpoint(""), "/geocode");
}

fn session(bin_exists: bool) -> DaemonSession {
    let files: Vec<&str> = if bin_exists { vec!["/opt/geo"] } else { vec![] };
    DaemonSession::start("http://127.0.0.1:7788/", &text("/opt/geo"), &env(&files), &addresses(&["a", "b"]))
}

#[test]
fn daemon_found_running_is_asked_and_left_alone() {
    let mut s = session(true);
    assert_eq!(
        s.action(),
        DaemonAction::Probe { url: "http://127.0.0.1:7788/geocode".to_string(), delay_ms: 0 }
    );
    s.handle(DaemonEvent::Health(true));
    assert_eq!(s.phase, DaemonPhase::Asking { owned: false });
    assert_eq!(
        s.action(),
        DaemonAction::Query {
            url: "http://127.0.0.1:7788/geocode".to_string(),
            addresses: addresses(&["a", "b"]),
        }
    );
    let rows = vec![located("a", 1.0, 2.0)];
    s.handle(DaemonEvent::Answer(Ok(rows.clone())));
    assert!(s.is_done());
    assert_eq!(s.action(), DaemonAction::Done { outcome: Ok(rows) });
    assert_eq!((s.spawned, s.stopped), (0, 0));
}

#[test]
fn daemon_is_started_asked_and_stopped() {
    let mut s = session(true);
    s.handle(DaemonEvent::Health(false));
    assert_eq!(
        s.action(),
        DaemonAction::Spawn { program: "/opt/geo".to_string(), args: addresses(&["--serve"]) }
    );
    s.handle(DaemonEvent::Spawned { error: None });
    assert_eq!(
        s.action(),
        DaemonAction::Probe { url: "http://127.0.0.1:7788/geocode".to_string(), delay_ms: 0 }
    );
    s.handle(DaemonEvent::Health(false));
    assert_eq!(
        s.action(),
        DaemonAction::Probe { url: "http://127.0.0.1:7788/geocode".to_string(), delay_ms: 150 }
    );
    s.handle(DaemonEvent::Health(true));
    assert_eq!(s.phase, DaemonPhase::Asking { owned: true });
    s.handle(DaemonEvent::Answer(Err("connection reset".to_string())));
    // The daemon is stopped although the request failed.
    assert_eq!(s.action(), DaemonAction::Stop);
    assert!(!s.is_done());
    s.handle(DaemonEvent::Stopped);
    assert!(s.is_done());
    assert_eq!((s.spawned, s.stopped), (1, 1));
    let expected = LocalError::Transport { detail: "connection reset".to_string() };
    assert_eq!(expected.message(), "geocoder daemon request failed: connection reset");
    assert_eq!(s.action(), DaemonAction::Done { outcome: Err(expected) });
}

#[test]
fn daemon_that_never_answers_is_started_twice_and_given_up() {
    assert_eq!(DAEMON_POLL_INTERVAL_MS, 150);
    assert_eq!(DAEMON_STARTUP_TIMEOUT_MS, 5000);
    let mut s = session(true);
    s.handle(DaemonEvent::Health(false));
    let mut launches: Vec<Vec<String>> = Vec::new();
    let mut probes_per_launch: Vec<u32> = Vec::new();
    let mut waited: u64 = 0;
    let mut steps = 0;
    while !s.is_done() {
        steps += 1;
        assert!(steps < 1000, "the session must come to an end");
        match s.action() {
            DaemonAction::Spawn { program, args } => {
                assert_eq!(program, "/opt/geo");
                launches.push(args);
                probes_per_launch.push(0);
                s.handle(DaemonEvent::Spawned { error: None });
            }
            DaemonAction::Probe { delay_ms, .. } => {
                waited += delay_ms;
                *probes_per_launch.last_mut().unwrap() += 1;
                s.handle(DaemonEvent::Health(false));
            }
            DaemonAction::Stop => s.handle(DaemonEvent::Stopped),
            other => panic!("unexpected action {:?}", other),
        }
    }
    assert_eq!(launches, vec![addresses(&["--serve"]), Vec::<String>::new()]);
    // 5000 ms at 150 ms a probe: 34 probes for each launch, the first at once.
    assert_eq!(probes_per_launch, vec![34, 34]);
    assert_eq!(waited, 2 * 33 * 150);
    assert_eq!((s.spawned, s.stopped), (2, 2));
    assert_eq!(s.action(), DaemonAction::Done { outcome: Err(LocalError::DaemonStartupTimeout) });
    assert_eq!(
        LocalError::DaemonStartupTimeout.message(),
        "Timed out waiting for geocoder daemon readiness"
    );
}

#[test]
fn daemon_ready_on_second_launch_is_asked_and_stopped() {
    let mut s = session(true);
    s.handle(DaemonEvent::Health(false));
    s.handle(DaemonEvent::Spawned { error: None });
    for _ in 0..34 {
        s.handle(DaemonEvent::Health(false));
    }
    assert_eq!(s.action(), DaemonAction::Stop);
    s.handle(DaemonEvent::Stopped);
    assert_eq!(
        s.action(),
        DaemonAction::Spawn { program: "/opt/geo".to_string(), args: Vec::new() }
    );
    s.handle(DaemonEvent::Spawned { error: None });
    s.handle(DaemonEvent::Health(true));
    s.handle(DaemonEvent::Answer(Ok(vec![])));
    assert_eq!(s.action(), DaemonAction::Stop);
    s.handle(DaemonEvent::Stopped);
    assert_eq!(s.action(), DaemonAction::Done { outcome: Ok(vec![]) });
    assert_eq!((s.spawned, s.stopped), (2, 2));
}

#[test]
fn daemon_without_a_binary_fails_without_starting_anything() {
    let mut s = session(false);
    s.handle(DaemonEvent::Health(false));
    assert!(s.is_done());
    assert_eq!(s.action(), DaemonAction::Done { outcome: Err(LocalError::ExplicitPathNotAFile) });
    assert_eq!((s.spawned, s.stopped), (0, 0));
}

#[test]
fn daemon_spawn_failure_ends_the_session() {
    let mut s = session(true);
    s.handle(DaemonEvent::Health(false));
    s.handle(DaemonEvent::Spawned { error: Some("permission denied".to_string()) });
    assert!(s.is_done());
    assert_eq!(
        s.action(),
        DaemonAction::Done {
            outcome: Err(LocalError::SpawnFailed { detail: "permission denied".to_string() })
        }
    );
    assert_eq!((s.spawned, s.stopped), (0, 0));
}

#[test]
fn daemon_ignores_what_it_does_not_wait_for() {
    let mut s = session(true);
    s.handle(DaemonEvent::Stopped);
    s.handle(DaemonEvent::Spawned { error: None });
    s.handle(DaemonEvent::Answer(Ok(vec![])));
    assert_eq!(s.phase, DaemonPhase::Probing);
    assert_eq!((s.spawned, s.stopped), (0, 0));
    s.handle(DaemonEvent::Health(true));
    s.handle(DaemonEvent::Health(false));
    s.handle(DaemonEvent::Stopped);
    assert_eq!(s.phase, DaemonPhase::Asking { owned: false });
}
