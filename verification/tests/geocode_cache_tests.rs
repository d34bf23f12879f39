use spatia::geocode_cache::{
    lookup_sql, storable_entries, CREATE_CACHE_TABLE_SQL, UPSERT_CACHE_SQL,
};
use spatia::{cache_lookup, cache_store, AddressCache, CacheEntry, Coordinate, GeocodeResult, ResultSource};

fn coord(value: f64) -> Coordinate {
    Coordinate::from_bits(value.to_bits())
}

fn degrees(c: Coordinate) -> f64 {
    f64::from_bits(c.to_bits())
}

fn row(address: &str, lat: Option<f64>, lon: Option<f64>) -> GeocodeResult {
    GeocodeResult {
        address: address.to_string(),
        lat: lat.map(coord),
        lon: lon.map(coord),
        source: None,
        status: None,
        error: None,
    }
}

#[test]
fn cache_lookup_empty_input() {
    let cache = AddressCache::new();
    let (hits, misses) = cache_lookup(&cache, &[]);
    assert!(hits.is_empty());
    assert!(misses.is_empty());
}

#[test]
fn cache_store_and_lookup_round_trip() {
    let mut cache = AddressCache::new();

    let results = vec![
        row("123 Main St", Some(37.1), Some(-122.5)),
        row("456 Oak Ave", Some(38.0), Some(-121.0)),
    ];

    cache_store(&mut cache, &results, "sidecar");

    let addresses = vec!["123 Main St".to_string(), "789 Unknown Rd".to_string()];
    let (hits, misses) = cache_lookup(&cache, &addresses);

    assert_eq!(hits.len(), 1);
    assert_eq!(hits[0].address, "123 Main St");
    assert!((degrees(hits[0].lat.unwrap()) - 37.1).abs() < 1e-4, "lat mismatch");

    assert_eq!(misses, vec!["789 Unknown Rd".to_string()]);
}

#[test]
fn cache_store_skips_unresolved_results() {
    let mut cache = AddressCache::new();

    let results = vec![GeocodeResult {
        address: "No Such Place".to_string(),
        lat: None,
        lon: None,
        source: None,
        status: None,
        error: Some("not found".to_string()),
    }];

    cache_store(&mut cache, &results, "sidecar");

    let (hits, misses) = cache_lookup(&cache, &["No Such Place".to_string()]);
    assert!(hits.is_empty(), "unresolved results must not be cached");
    assert_eq!(misses.len(), 1);
}

#[test]
fn cache_store_upserts_existing_entry() {
    let mut cache = AddressCache::new();

    let v1 = vec![row("1 Infinite Loop", Some(10.0), Some(20.0))];
    cache_store(&mut cache, &v1, "sidecar");

    let v2 = vec![row("1 Infinite Loop", Some(11.0), Some(21.0))];
    cache_store(&mut cache, &v2, "geocodio");

    let (hits, _) = cache_lookup(&cache, &["1 Infinite Loop".to_string()]);
    assert_eq!(hits.len(), 1);
    assert!((degrees(hits[0].lat.unwrap()) - 11.0).abs() < 1e-4, "lat should be updated");
    assert_eq!(cache.len(), 1);
}

#[test]
fn round_trip_returns_the_exact_coordinates() {
    let mut cache = AddressCache::new();
    let lat = 37.123456789012345_f64;
    let lon = -122.98765432109876_f64;
    cache_store(&mut cache, &[row("a", Some(lat), Some(lon))], "local-resolver");
    let (hits, misses) = cache_lookup(&cache, &["a".to_string()]);
    assert!(misses.is_empty());
    assert_eq!(hits.len(), 1);
    assert_eq!(hits[0].lat, Some(coord(lat)));
    assert_eq!(hits[0].lon, Some(coord(lon)));
    assert_eq!(degrees(hits[0].lat.unwrap()), lat);
    assert_eq!(degrees(hits[0].lon.unwrap()), lon);
    assert_eq!(hits[0].source, Some(ResultSource::Cache));
    assert_eq!(hits[0].status, None);
    assert_eq!(hits[0].error, None);
    assert_eq!(cache.get("a"), Some(hits[0].clone()));
    assert_eq!(cache.get("b"), None);
}

#[test]
fn a_row_with_one_coordinate_is_not_stored() {
    let mut cache = AddressCache::new();
    cache_store(
        &mut cache,
        &[row("half", Some(1.0), None), row("other half", None, Some(2.0))],
        "sidecar",
    );
    assert_eq!(cache.len(), 0);
    let (hits, misses) = cache_lookup(&cache, &["half".to_string(), "other half".to_string()]);
    assert!(hits.is_empty());
    assert_eq!(misses, vec!["half".to_string(), "other half".to_string()]);
}

#[test]
fn an_unresolved_row_leaves_an_older_entry_alone() {
    let mut cache = AddressCache::new();
    cache_store(&mut cache, &[row("a", Some(1.0), Some(2.0))], "sidecar");
    cache_store(&mut cache, &[row("a", None, None)], "geocodio");
    let (hits, _) = cache_lookup(&cache, &["a".to_string()]);
    assert_eq!(hits[0].lat, Some(coord(1.0)));
}

#[test]
fn the_last_of_two_rows_in_one_store_wins() {
    let mut cache = AddressCache::new();
    cache_store(
        &mut cache,
        &[row("a", Some(1.0), Some(2.0)), row("a", Some(3.0), Some(4.0))],
        "sidecar",
    );
    assert_eq!(cache.len(), 1);
    let (hits, _) = cache_lookup(&cache, &["a".to_string()]);
    assert_eq!(hits[0].lat, Some(coord(3.0)));
    assert_eq!(hits[0].lon, Some(coord(4.0)));
}

#[test]
fn lookup_keeps_the_order_asked_and_every_repetition() {
    let mut cache = AddressCache::new();
    cache_store(
        &mut cache,
        &[row("b", Some(2.0), Some(2.0)), row("a", Some(1.0), Some(1.0))],
        "sidecar",
    );
    let asked: Vec<String> = ["x", "a", "y", "b", "a", "x"].iter().map(|s| s.to_string()).collect();
    let (hits, misses) = cache_lookup(&cache, &asked);
    let hit_addresses: Vec<&str> = hits.iter().map(|h| h.address.as_str()).collect();
    assert_eq!(hit_addresses, vec!["a", "b", "a"]);
    assert_eq!(misses, vec!["x".to_string(), "y".to_string(), "x".to_string()]);
}

#[test]
fn addresses_are_keys_exactly_as_written() {
    let mut cache = AddressCache::new();
    cache_store(&mut cache, &[row("1 Main St", Some(1.0), Some(2.0))], "sidecar");
    let (hits, misses) = cache_lookup(
        &cache,
        &["1 main st".to_string(), " 1 Main St".to_string(), "1 Main St".to_string()],
    );
    assert_eq!(hits.len(), 1);
    assert_eq!(misses.len(), 2);
}

#[test]
fn cache_from_rows_holds_the_rows() {
    let rows = vec![
        CacheEntry { address: "a".to_string(), lat: coord(1.0), lon: coord(2.0), source: "s".to_string() },
        CacheEntry { address: "b".to_string(), lat: coord(3.0), lon: coord(4.0), source: "s".to_string() },
        CacheEntry { address: "a".to_string(), lat: coord(5.0), lon: coord(6.0), source: "t".to_string() },
    ];
    let cache = AddressCache::from_rows(&rows);
    assert_eq!(cache.len(), 2);
    assert_eq!(cache.get("a").unwrap().lat, Some(coord(5.0)));
    assert_eq!(cache.get("b").unwrap().lon, Some(coord(4.0)));
}

#[test]
fn storable_entries_are_the_resolved_rows_in_order() {
    let entries = storable_entries(
        &[
            row("a", Some(1.0), Some(2.0)),
            row("b", None, None),
            row("c", Some(3.0), None),
            row("d", Some(5.0), Some(6.0)),
        ],
        "remote-api",
    );
    assert_eq!(
        entries,
        vec![
            CacheEntry {
                address: "a".to_string(),
                lat: coord(1.0),
                lon: coord(2.0),
                source: "remote-api".to_string(),
            },
            CacheEntry {
                address: "d".to_string(),
                lat: coord(5.0),
                lon: coord(6.0),
                source: "remote-api".to_string(),
            },
        ]
    );
    assert!(storable_entries(&[], "x").is_empty());
}

#[test]
fn lookup_statement_has_one_marker_for_each_address() {
    assert_eq!(
        lookup_sql(1),
        "SELECT address, lat, lon, source FROM geocode_cache WHERE address IN ($1)"
    );
    assert_eq!(
        lookup_sql(3),
        "SELECT address, lat, lon, source FROM geocode_cache WHERE address IN ($1, $2, $3)"
    );
    assert!(lookup_sql(12).ends_with("$9, $10, $11, $12)"));
    assert_eq!(
        lookup_sql(0),
        "SELECT address, lat, lon, source FROM geocode_cache WHERE address IN ()"
    );
}

#[test]
fn cache_statements_name_the_table() {
    // Coordinates are kept in double precision, so that what is read is
    // what was written.
    assert_eq!(
        CREATE_CACHE_TABLE_SQL,
        "CREATE TABLE IF NOT EXISTS geocode_cache (address TEXT PRIMARY KEY, lat DOUBLE NOT NULL, lon DOUBLE NOT NULL, source TEXT NOT NULL, cached_at TIMESTAMP DEFAULT current_timestamp);"
    );
    assert_eq!(
        UPSERT_CACHE_SQL,
        "INSERT OR REPLACE INTO geocode_cache (address, lat, lon, source) VALUES ($1, $2, $3, $4)"
    );
}
