use spatia::geocodio::{
    entries_to_results, entry_to_result, geocodio_url, Location, RemoteAction, RemoteEntry,
    RemoteFailure, RemoteSession,
};
use spatia::{ConfigError, Coordinate, GeocodeResult, ResultSource};

fn coord(value: f64) -> Coordinate {
    Coordinate::from_bits(value.to_bits())
}

fn text(value: &str) -> Option<String> {
    Some(value.to_string())
}

fn addresses(n: usize) -> Vec<String> {
    (0..n).map(|i| format!("{} Main St", i)).collect()
}

fn entry(query: &str, places: &[(f64, f64)]) -> RemoteEntry {
    RemoteEntry {
        query: query.to_string(),
        candidates: places.iter().map(|(lat, lng)| Location { lat: coord(*lat), lng: coord(*lng) }).collect(),
    }
}

#[test]
fn geocodio_returns_err_without_api_key() {
    let err = RemoteSession::start(&None, "https://api.geocodio.com/v1.7", 100, &["123 Main St".to_string()])
        .err()
        .expect("should fail without key");
    assert!(
        err.message().contains("SPATIA_GEOCODIO_API_KEY"),
        "error should mention env var: {}",
        err.message()
    );
    assert_eq!(err, ConfigError::MissingCredential);
}

#[test]
fn blank_credential_is_a_configuration_error() {
    for key in ["", "   ", "\t\n"] {
        let err = RemoteSession::start(&text(key), "https://api.geocodio.com/v1.7", 100, &addresses(1))
            .err()
            .expect("should fail with a blank key");
        assert_eq!(err, ConfigError::EmptyCredential);
    }
}

#[test]
fn credential_is_checked_even_for_no_addresses() {
    assert!(RemoteSession::start(&None, "u", 100, &[]).is_err());
    let session = RemoteSession::start(&text("k"), "u", 100, &[]).ok().expect("session");
    assert!(session.is_done());
    assert_eq!(session.action(), RemoteAction::Done { outcome: Ok(vec![]) });
}

#[test]
fn request_address_holds_key_and_limit() {
    assert_eq!(
        geocodio_url("https://api.geocodio.com/v1.7", "abc"),
        "https://api.geocodio.com/v1.7/geocode?api_key=abc&limit=1"
    );
}

#[test]
fn first_candidate_gives_the_coordinates() {
    let row = entry_to_result(&entry("a", &[(1.5, -2.5), (9.0, 9.0)]));
    assert_eq!(
        row,
        GeocodeResult {
            address: "a".to_string(),
            lat: Some(coord(1.5)),
            lon: Some(coord(-2.5)),
            source: Some(ResultSource::RemoteApi),
            status: None,
            error: None,
        }
    );
}

#[test]
fn no_candidate_gives_no_coordinates() {
    let row = entry_to_result(&entry("nowhere", &[]));
    assert_eq!(
        row,
        GeocodeResult {
            address: "nowhere".to_string(),
            lat: None,
            lon: None,
            source: None,
            status: None,
            error: None,
        }
    );
    let rows = entries_to_results(&[entry("a", &[(1.0, 2.0)]), entry("b", &[])]);
    assert_eq!(rows.len(), 2);
    assert!(rows[0].is_resolved());
    assert!(!rows[1].is_resolved());
}

fn run(session: &mut RemoteSession, fail_at: Option<usize>) -> (Vec<Vec<String>>, RemoteAction) {
    let mut sent: Vec<Vec<String>> = Vec::new();
    loop {
        match session.action() {
            RemoteAction::Send { url, addresses } => {
                assert_eq!(url, "https://api.geocodio.com/v1.7/geocode?api_key=k&limit=1");
                let answer = if fail_at == Some(sent.len()) {
                    Err(RemoteFailure::Status { code: 503 })
                } else {
                    Ok(addresses.iter().map(|a| entry(a, &[(1.0, 2.0)])).collect())
                };
                sent.push(addresses);
                session.handle(answer);
            }
            done => return (sent, done),
        }
        assert!(sent.len() < 10_000);
    }
}

#[test]
fn addresses_are_sent_in_chunks_of_the_batch_size() {
    let all = addresses(7);
    let mut session = RemoteSession::start(&text("k"), "https://api.geocodio.com/v1.7", 3, &all)
        .ok()
        .expect("session");
    let (sent, done) = run(&mut session, None);
    assert_eq!(sent.len(), 3);
    assert_eq!(sent[0], all[0..3].to_vec());
    assert_eq!(sent[1], all[3..6].to_vec());
    assert_eq!(sent[2], all[6..7].to_vec());
    match done {
        RemoteAction::Done { outcome: Ok(rows) } => {
            let got: Vec<String> = rows.iter().map(|r| r.address.clone()).collect();
            assert_eq!(got, all);
        }
        other => panic!("unexpected end {:?}", other),
    }
}

#[test]
fn chunk_sizes_at_the_edges() {
    for (n, batch, expected) in [
        (1usize, 1usize, vec![1usize]),
        (4, 4, vec![4]),
        (5, 4, vec![4, 1]),
        (8, 4, vec![4, 4]),
        (3, 10_000, vec![3]),
        (5, 1, vec![1, 1, 1, 1, 1]),
    ] {
        let mut session = RemoteSession::start(&text("k"), "https://api.geocodio.com/v1.7", batch, &addresses(n))
            .ok()
            .expect("session");
        let (sent, _) = run(&mut session, None);
        let sizes: Vec<usize> = sent.iter().map(|c| c.len()).collect();
        assert_eq!(sizes, expected);
    }
}

#[test]
fn a_failed_request_ends_the_session_without_rows() {
    let mut session = RemoteSession::start(&text("k"), "https://api.geocodio.com/v1.7", 2, &addresses(6))
        .ok()
        .expect("session");
    let (sent, done) = run(&mut session, Some(1));
    assert_eq!(sent.len(), 2);
    assert_eq!(done, RemoteAction::Done { outcome: Err(RemoteFailure::Status { code: 503 }) });
    // Nothing more is taken once the session is over.
    session.handle(Ok(vec![entry("late", &[(1.0, 1.0)])]));
    assert_eq!(
        session.action(),
        RemoteAction::Done { outcome: Err(RemoteFailure::Status { code: 503 }) }
    );
}
