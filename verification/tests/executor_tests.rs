use spatia::executor::{
    ingest_answer, parse_tokens, split_bbox, BBoxText, CommandKind, DEFAULT_SEARCH_LIMIT,
};
use spatia::{parse_command, tokenize, Command, CommandError};

#[test]
fn parse_ingest_with_optional_table() {
    let command = parse_command("ingest ./db.duckdb ./data.csv places").expect("parse");
    assert_eq!(
        command,
        Command::Ingest {
            db_path: "./db.duckdb".to_string(),
            csv_path: "./data.csv".to_string(),
            table_name: Some("places".to_string()),
        }
    );
}

#[test]
fn parse_ingest_without_table() {
    let command = parse_command("ingest ./db.duckdb ./data.csv").expect("parse");
    assert_eq!(
        command,
        Command::Ingest {
            db_path: "./db.duckdb".to_string(),
            csv_path: "./data.csv".to_string(),
            table_name: None,
        }
    );
}

#[test]
fn parse_geocode_with_quoted_addresses() {
    let command = parse_command("geocode \"San Francisco, CA\" 'New York, NY'").expect("parse");
    assert_eq!(
        command,
        Command::Geocode {
            addresses: vec!["San Francisco, CA".to_string(), "New York, NY".to_string()],
        }
    );
}

#[test]
fn parse_overture_extract_with_bbox() {
    let command = parse_command(
        "overture_extract ./spatia.duckdb places place -122.4,47.5,-122.2,47.7 places_wa",
    )
    .expect("parse");

    match command {
        Command::OvertureExtract {
            db_path,
            theme,
            item_type,
            table_name,
            ..
        } => {
            assert_eq!(db_path, "./spatia.duckdb");
            assert_eq!(theme, "places");
            assert_eq!(item_type, "place");
            assert_eq!(table_name.as_deref(), Some("places_wa"));
        }
        _ => panic!("expected overture extract command"),
    }
}

#[test]
fn parse_overture_search_with_limit() {
    let command =
        parse_command("overture_search ./spatia.duckdb places_wa \"lincoln\" 5").expect("parse");
    assert_eq!(
        command,
        Command::OvertureSearch {
            db_path: "./spatia.duckdb".to_string(),
            table_name: "places_wa".to_string(),
            query: "lincoln".to_string(),
            limit: 5,
        }
    );
}

#[test]
fn parse_overture_geocode_with_limit() {
    let command = parse_command(
        "overture_geocode ./spatia.duckdb addresses_ca \"321 n lincoln st redlands\" 3",
    )
    .expect("parse");
    assert_eq!(
        command,
        Command::OvertureGeocode {
            db_path: "./spatia.duckdb".to_string(),
            table_name: "addresses_ca".to_string(),
            query: "321 n lincoln st redlands".to_string(),
            limit: 3,
        }
    );
}

#[test]
fn execute_unknown_command_errors() {
    let err = parse_command("unknown").expect_err("should fail");
    assert!(err.message().contains("Unknown command"));
    assert_eq!(err, CommandError::Unknown { name: "unknown".to_string() });
    assert_eq!(err.message(), "Unknown command: unknown");
}

#[test]
fn tokenize_cuts_at_whitespace_and_keeps_quoted_text() {
    assert_eq!(
        tokenize("  a\t\"b c\"  'd \"e\"'\n").expect("tokens"),
        vec!["a".to_string(), "b c".to_string(), "d \"e\"".to_string()]
    );
    assert_eq!(tokenize("").expect("tokens"), Vec::<String>::new());
    assert_eq!(tokenize("   ").expect("tokens"), Vec::<String>::new());
    // A quote inside a token joins what it encloses to the token.
    assert_eq!(tokenize("ab\"c d\"e").expect("tokens"), vec!["abc de".to_string()]);
    // An empty pair of quotes makes no token.
    assert_eq!(tokenize("\"\" x").expect("tokens"), vec!["x".to_string()]);
}

#[test]
fn tokenize_refuses_an_open_quote() {
    assert_eq!(tokenize("geocode \"San").expect_err("open"), CommandError::UnterminatedQuote);
    assert_eq!(tokenize("it's").expect_err("open"), CommandError::UnterminatedQuote);
    assert_eq!(CommandError::UnterminatedQuote.message(), "Unterminated quoted string");
}

#[test]
fn empty_line_is_no_command() {
    let err = parse_command("   ").expect_err("empty");
    assert_eq!(err, CommandError::Empty);
    assert_eq!(err.message(), "Command cannot be empty");
    assert_eq!(parse_tokens(&Vec::new()), Err(CommandError::Empty));
}

#[test]
fn wrong_number_of_arguments_gives_the_usage() {
    let cases = vec![
        ("ingest a", CommandKind::Ingest, "Usage: ingest <db_path> <csv_path> [table_name]"),
        ("ingest a b c d", CommandKind::Ingest, "Usage: ingest <db_path> <csv_path> [table_name]"),
        ("schema a", CommandKind::Schema, "Usage: schema <db_path> <table_name>"),
        ("geocode", CommandKind::Geocode, "Usage: geocode <address_1> <address_2> ..."),
        (
            "overture_extract a b c",
            CommandKind::OvertureExtract,
            "Usage: overture_extract <db_path> <theme> <type> <xmin,ymin,xmax,ymax> [table_name]",
        ),
        (
            "overture_search a b",
            CommandKind::OvertureSearch,
            "Usage: overture_search <db_path> <table_name> <query> [limit]",
        ),
        (
            "overture_geocode a b c d e",
            CommandKind::OvertureGeocode,
            "Usage: overture_geocode <db_path> <table_name> <query> [limit]",
        ),
    ];
    for (line, kind, usage) in cases {
        let err = parse_command(line).expect_err("usage");
        assert_eq!(err, CommandError::Usage { command: kind });
        assert_eq!(err.message(), usage);
    }
}

#[test]
fn search_limit_defaults_and_must_be_a_number() {
    assert_eq!(DEFAULT_SEARCH_LIMIT, 20);
    match parse_command("overture_search db t q").expect("parse") {
        Command::OvertureSearch { limit, .. } => assert_eq!(limit, 20),
        _ => panic!("expected overture search command"),
    }
    match parse_command("overture_geocode db t q").expect("parse") {
        Command::OvertureGeocode { limit, .. } => assert_eq!(limit, 20),
        _ => panic!("expected overture geocode command"),
    }
    let err = parse_command("overture_search db t q many").expect_err("limit");
    assert_eq!(err, CommandError::InvalidLimit { value: "many".to_string() });
    assert_eq!(err.message(), "invalid limit: many");
    assert!(parse_command("overture_geocode db t q -1").is_err());
    match parse_command("overture_search db t q +7").expect("parse") {
        Command::OvertureSearch { limit, .. } => assert_eq!(limit, 7),
        _ => panic!("expected overture search command"),
    }
}

#[test]
fn bounding_box_has_four_trimmed_parts() {
    assert_eq!(
        split_bbox(" -122.4 ,47.5, -122.2,47.7 "),
        Some(BBoxText {
            xmin: "-122.4".to_string(),
            ymin: "47.5".to_string(),
            xmax: "-122.2".to_string(),
            ymax: "47.7".to_string(),
        })
    );
    assert_eq!(split_bbox("1,2,3"), None);
    assert_eq!(split_bbox("1,2,3,4,5"), None);
    assert_eq!(split_bbox(""), None);
    let err = parse_command("overture_extract db places place 1,2,3").expect_err("bbox");
    assert_eq!(err, CommandError::BoundingBox);
    assert_eq!(err.message(), "bbox must be: xmin,ymin,xmax,ymax");
}

#[test]
fn ingest_answer_names_the_table() {
    assert_eq!(ingest_answer("raw_staging"), "{\"status\":\"ok\",\"table\":\"raw_staging\"}");
    assert_eq!(ingest_answer("places"), "{\"status\":\"ok\",\"table\":\"places\"}");
}

#[test]
fn bbox_parse_success() {
    let bbox = split_bbox("-122.4,47.5,-122.2,47.7").expect("parse bbox");
    assert_eq!(bbox.xmin.parse::<f64>().expect("xmin"), -122.4);
    assert_eq!(bbox.ymin.parse::<f64>().expect("ymin"), 47.5);
    assert_eq!(bbox.xmax.parse::<f64>().expect("xmax"), -122.2);
    assert_eq!(bbox.ymax.parse::<f64>().expect("ymax"), 47.7);
}
