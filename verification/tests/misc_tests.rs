use spatia::analysis::{
    is_analysis_view_statement, is_latitude_name, is_longitude_name, ANALYSIS_COLUMNS_SQL,
    ANALYSIS_ROWS_SQL,
};
use spatia::cli::{is_known_command, read_arguments, CliRequest};
use spatia::desktop::{
    chat_prompt, check_goal, check_message, fallback_analysis_sql, greet, resolved_table, DesktopError,
    IngestStage, DEFAULT_VISUALIZATION, GEMINI_NOT_CONFIGURED,
};
use spatia::ingest::{load_csv_sql, plan_ingest, LOAD_SPATIAL_SQL};
use spatia::schema::{table_info_sql, RAW_STAGING_TABLE};
use spatia::{
    is_help_request, is_ident_continue, is_ident_start, serialize_command, validate_analysis_sql,
    validate_table_name, AnalysisError, Coordinate, GeocodeResult, IdentifierError, ResultSource,
};

fn list(items: &[&str]) -> Vec<String> {
    items.iter().map(|a| a.to_string()).collect()
}

#[test]
fn rejects_non_view_sql() {
    let err = validate_analysis_sql("SELECT 1").expect_err("expected validation error");
    assert!(err
        .message()
        .contains("CREATE [OR REPLACE] VIEW analysis_result AS"));
    assert_eq!(err, AnalysisError::NotAViewStatement);
    assert_eq!(
        err.message(),
        "analysis SQL must start with CREATE [OR REPLACE] VIEW analysis_result AS"
    );
}

#[test]
fn accepts_view_statements_in_any_case() {
    assert!(validate_analysis_sql(
        "CREATE OR REPLACE VIEW analysis_result AS SELECT city, lat, lon FROM points"
    )
    .is_ok());
    assert!(validate_analysis_sql("  create view Analysis_Result as select 1\n").is_ok());
    assert!(validate_analysis_sql("CREATE VIEW analysis_result ASSELECT").is_ok());
    assert!(validate_analysis_sql("CREATE OR REPLACE VIEW other AS SELECT 1").is_err());
    assert!(validate_analysis_sql("CREATE  VIEW analysis_result AS SELECT 1").is_err());
    assert!(validate_analysis_sql("DROP VIEW analysis_result").is_err());
    assert!(validate_analysis_sql("").is_err());
    assert!(is_analysis_view_statement("CREATE VIEW ANALYSIS_RESULT AS"));
    assert!(!is_analysis_view_statement("create view analysis_result as"));
}

#[test]
fn coordinate_columns_are_known_by_name() {
    for name in ["lat", "LAT", "Latitude"] {
        assert!(is_latitude_name(name));
        assert!(!is_longitude_name(name));
    }
    for name in ["lon", "Lng", "LONGITUDE"] {
        assert!(is_longitude_name(name));
        assert!(!is_latitude_name(name));
    }
    for name in ["", "latitud", "long", "x", " lat"] {
        assert!(!is_latitude_name(name));
        assert!(!is_longitude_name(name));
    }
    assert_eq!(ANALYSIS_COLUMNS_SQL, "PRAGMA table_info('analysis_result')");
    assert_eq!(ANALYSIS_ROWS_SQL, "SELECT * FROM analysis_result LIMIT 1000");
}

#[test]
fn table_names_are_letters_digits_and_underscores() {
    for name in ["a", "_", "_a1", "Places_WA", "raw_staging", "t1234567890"] {
        assert_eq!(validate_table_name(name), Ok(()), "name {:?}", name);
    }
    assert_eq!(validate_table_name(""), Err(IdentifierError::Empty));
    for name in ["1a", "a b", "a-b", "a;drop", "a'", "é", "aé", " a", "a.b", "\"a\""] {
        assert_eq!(validate_table_name(name), Err(IdentifierError::Invalid), "name {:?}", name);
    }
    assert_eq!(IdentifierError::Empty.message(), "table name is empty");
    assert_eq!(
        IdentifierError::Invalid.message(),
        "table name must be alphanumeric or underscore and start with a letter or underscore"
    );
}

#[test]
fn identifier_characters() {
    for c in ['a', 'z', 'A', 'Z', '_'] {
        assert!(is_ident_start(c));
        assert!(is_ident_continue(c));
    }
    for c in ['0', '9'] {
        assert!(!is_ident_start(c));
        assert!(is_ident_continue(c));
    }
    for c in [' ', '-', '$', 'é', '@', '[', '`', '{', '/', ':'] {
        assert!(!is_ident_start(c));
        assert!(!is_ident_continue(c));
    }
}

#[test]
fn help_is_asked_by_the_first_argument() {
    assert!(is_help_request(&list(&["help"])));
    assert!(is_help_request(&list(&["-h", "ingest"])));
    assert!(is_help_request(&list(&["--help"])));
    assert!(!is_help_request(&list(&["ingest", "--help"])));
    assert!(!is_help_request(&list(&["Help"])));
    assert!(!is_help_request(&[]));
}

#[test]
fn arguments_with_whitespace_are_quoted() {
    assert_eq!(
        serialize_command(&list(&["geocode", "123 Main St, Springfield", "plain"])),
        "geocode \"123 Main St, Springfield\" plain"
    );
    assert_eq!(
        serialize_command(&list(&["overture_search", "db", "t", "say \"hi\" now"])),
        "overture_search db t \"say \\\"hi\\\" now\""
    );
    assert_eq!(serialize_command(&list(&["a\"b"])), "a\"b");
    assert_eq!(serialize_command(&[]), "");
    assert_eq!(serialize_command(&list(&["", "x"])), " x");
}

#[test]
fn command_line_asks_for_help_or_a_command() {
    assert_eq!(read_arguments(&[]), CliRequest::Help);
    assert_eq!(read_arguments(&list(&["help"])), CliRequest::Help);
    assert_eq!(read_arguments(&list(&["frobnicate", "x"])), CliRequest::Help);
    assert_eq!(
        read_arguments(&list(&["schema", "my db", "t"])),
        CliRequest::Execute { command: "schema \"my db\" t".to_string() }
    );
    for name in ["ingest", "schema", "geocode", "overture_extract", "overture_search", "overture_geocode"] {
        assert!(is_known_command(name));
    }
    assert!(!is_known_command("help"));
    assert!(!is_known_command(""));
}

#[test]
fn csv_statement_escapes_the_path() {
    assert_eq!(
        load_csv_sql("/tmp/it's.csv", "raw_staging", true),
        "CREATE OR REPLACE TABLE raw_staging AS SELECT * FROM read_csv_auto('/tmp/it''s.csv')"
    );
    assert_eq!(
        load_csv_sql("data.csv", "places", false),
        "CREATE TABLE places AS SELECT * FROM read_csv_auto('data.csv')"
    );
    assert_eq!(LOAD_SPATIAL_SQL, ["INSTALL spatial", "LOAD spatial"]);
}

#[test]
fn ingestion_fills_the_staging_table_unless_one_is_named() {
    let plan = plan_ingest("data.csv", &None).expect("plan");
    assert_eq!(plan.table, "raw_staging");
    assert_eq!(RAW_STAGING_TABLE, "raw_staging");
    assert_eq!(
        plan.sql,
        "CREATE OR REPLACE TABLE raw_staging AS SELECT * FROM read_csv_auto('data.csv')"
    );
    let plan = plan_ingest("data.csv", &Some("places".to_string())).expect("plan");
    assert_eq!(plan.table, "places");
    assert_eq!(plan.sql, "CREATE TABLE places AS SELECT * FROM read_csv_auto('data.csv')");
    assert_eq!(
        plan_ingest("data.csv", &Some("bad name".to_string())),
        Err(IdentifierError::Invalid)
    );
    assert_eq!(plan_ingest("data.csv", &Some(String::new())), Err(IdentifierError::Empty));
}

#[test]
fn schema_statement_names_the_table() {
    assert_eq!(table_info_sql("raw_staging"), "PRAGMA table_info('raw_staging')");
}

#[test]
fn desktop_texts_are_exact() {
    assert_eq!(greet("Ada"), "Hello, Ada! You've been greeted from Rust!");
    assert_eq!(
        chat_prompt("SYSTEM", "  how many rows? \n"),
        Ok("SYSTEM\n\n## User message\nhow many rows?\n".to_string())
    );
    assert_eq!(chat_prompt("SYSTEM", " \t"), Err(DesktopError::EmptyMessage));
    assert_eq!(DesktopError::EmptyMessage.message(), "user_message cannot be empty");
    assert_eq!(check_message("hello"), Ok(()));
    assert_eq!(check_message("\n"), Err(DesktopError::EmptyMessage));
    assert_eq!(check_goal("plot"), Ok(()));
    assert_eq!(check_goal(""), Err(DesktopError::EmptyGoal));
    assert_eq!(DesktopError::EmptyGoal.message(), "user_goal cannot be empty");
    assert_eq!(
        fallback_analysis_sql("places"),
        "CREATE OR REPLACE VIEW analysis_result AS SELECT * FROM places LIMIT 100;"
    );
    assert_eq!(DEFAULT_VISUALIZATION, "scatter");
    assert_eq!(
        GEMINI_NOT_CONFIGURED,
        "Gemini is not configured. Set SPATIA_GEMINI_API_KEY to enable AI analysis chat."
    );
}

#[test]
fn ingestion_table_is_the_trimmed_name_unless_blank() {
    assert_eq!(resolved_table(&None), None);
    assert_eq!(resolved_table(&Some("  ".to_string())), None);
    assert_eq!(resolved_table(&Some(String::new())), None);
    assert_eq!(resolved_table(&Some(" places ".to_string())), Some("places".to_string()));
}

#[test]
fn ingestion_progress_steps() {
    let steps = [
        (IngestStage::Started, "started", 5u8, "Starting CSV ingestion"),
        (IngestStage::Reading, "reading", 30, "Reading file: x"),
        (IngestStage::Writing, "writing", 85, "Loaded table: x"),
        (IngestStage::Completed, "completed", 100, "Ingestion complete"),
        (IngestStage::Failed, "failed", 100, "Ingestion failed: x"),
    ];
    for (stage, name, percent, message) in steps {
        assert_eq!(stage.name(), name);
        assert_eq!(stage.percent(), percent);
        assert_eq!(stage.describe("x"), message);
    }
}

#[test]
fn rows_report_whether_they_are_resolved() {
    let lat = Coordinate::from_bits(47.6062_f64.to_bits());
    let lon = Coordinate::from_bits((-122.3321_f64).to_bits());
    assert_eq!(f64::from_bits(lat.to_bits()), 47.6062);
    let row = GeocodeResult::located("Seattle".to_string(), lat, lon, ResultSource::LocalResolver);
    assert!(row.is_resolved());
    assert_eq!(row.duplicate(), row);
    assert_eq!(row.credited_to(ResultSource::Cache).source, Some(ResultSource::Cache));
    assert_eq!(row.credited_to(ResultSource::Cache).lat, Some(lat));
    let none = GeocodeResult::unresolved("Nowhere".to_string());
    assert!(!none.is_resolved());
    assert_eq!(none.address, "Nowhere");
    assert_eq!((none.lat, none.lon, none.source), (None, None, None));
    let half = GeocodeResult { lon: None, ..row.clone() };
    assert!(!half.is_resolved());
    assert_eq!(ResultSource::Cache.as_str(), "cache");
    assert_eq!(ResultSource::LocalResolver.as_str(), "local-resolver");
    assert_eq!(ResultSource::RemoteApi.as_str(), "remote-api");
    for source in [ResultSource::Cache, ResultSource::LocalResolver, ResultSource::RemoteApi] {
        assert_eq!(ResultSource::from_tag(source.as_str()), Some(source));
    }
    assert_eq!(ResultSource::from_tag("Cache"), None);
    assert_eq!(ResultSource::from_tag("sidecar"), None);
    assert_eq!(ResultSource::from_tag(""), None);
}
