use serde_json::{Number, Value};
use spatia::mcp::{
    method_not_found_message, method_to_answer, parse_error_message, require_str, route,
    tool_arguments, tool_name, RpcMethod, INTERNAL_ERROR, INVALID_PARAMS, METHOD_NOT_FOUND,
    PARSE_ERROR, PROTOCOL_VERSION, SERVER_NAME, SERVER_VERSION,
};
use spatia::{
    build_command, command_for, parse_command, quote, tokenize, Command, McpError, ToolArguments,
};

fn text(value: &str) -> Option<String> {
    Some(value.to_string())
}

fn string(value: &str) -> Value {
    Value::String(value.to_string())
}

fn object(members: &[(&str, Value)]) -> Value {
    let mut map = serde_json::Map::new();
    for (key, value) in members {
        map.insert(key.to_string(), value.clone());
    }
    Value::Object(map)
}

#[test]
fn build_ingest_without_table() {
    let args = object(&[("db_path", string("/tmp/test.duckdb")), ("csv_path", string("/tmp/data.csv"))]);
    let cmd = build_command("ingest_csv", &args).unwrap();
    assert_eq!(cmd, "ingest /tmp/test.duckdb /tmp/data.csv");
}

#[test]
fn build_ingest_with_table() {
    let args = object(&[
        ("db_path", string("/tmp/test.duckdb")),
        ("csv_path", string("/tmp/data.csv")),
        ("table_name", string("places")),
    ]);
    let cmd = build_command("ingest_csv", &args).unwrap();
    assert_eq!(cmd, "ingest /tmp/test.duckdb /tmp/data.csv places");
}

#[test]
fn build_get_schema() {
    let args = object(&[("db_path", string("/tmp/test.duckdb")), ("table_name", string("raw_staging"))]);
    let cmd = build_command("get_schema", &args).unwrap();
    assert_eq!(cmd, "schema /tmp/test.duckdb raw_staging");
}

#[test]
fn build_overture_extract_without_table() {
    let args = object(&[
        ("db_path", string("/tmp/spatia.duckdb")),
        ("theme", string("places")),
        ("item_type", string("place")),
        ("bbox", string("-122.4,47.5,-122.2,47.7")),
    ]);
    let cmd = build_command("overture_extract", &args).unwrap();
    assert_eq!(
        cmd,
        "overture_extract /tmp/spatia.duckdb places place -122.4,47.5,-122.2,47.7"
    );
}

#[test]
fn build_overture_extract_with_table() {
    let args = object(&[
        ("db_path", string("/tmp/spatia.duckdb")),
        ("theme", string("places")),
        ("item_type", string("place")),
        ("bbox", string("-122.4,47.5,-122.2,47.7")),
        ("table_name", string("places_wa")),
    ]);
    let cmd = build_command("overture_extract", &args).unwrap();
    assert_eq!(
        cmd,
        "overture_extract /tmp/spatia.duckdb places place -122.4,47.5,-122.2,47.7 places_wa"
    );
}

#[test]
fn build_overture_search_without_limit() {
    let args = object(&[
        ("db_path", string("/tmp/spatia.duckdb")),
        ("table_name", string("places_wa")),
        ("query", string("lincoln park")),
    ]);
    let cmd = build_command("overture_search", &args).unwrap();
    assert_eq!(
        cmd,
        "overture_search /tmp/spatia.duckdb places_wa \"lincoln park\""
    );
}

#[test]
fn build_overture_search_with_limit() {
    let args = object(&[
        ("db_path", string("/tmp/spatia.duckdb")),
        ("table_name", string("places_wa")),
        ("query", string("coffee")),
        ("limit", Value::from(5u64)),
    ]);
    let cmd = build_command("overture_search", &args).unwrap();
    assert_eq!(cmd, "overture_search /tmp/spatia.duckdb places_wa coffee 5");
}

#[test]
fn build_overture_geocode() {
    let args = object(&[
        ("db_path", string("/tmp/spatia.duckdb")),
        ("table_name", string("addresses_ca")),
        ("query", string("321 n lincoln st redlands")),
        ("limit", Value::from(3u64)),
    ]);
    let cmd = build_command("overture_geocode", &args).unwrap();
    assert_eq!(
        cmd,
        "overture_geocode /tmp/spatia.duckdb addresses_ca \"321 n lincoln st redlands\" 3"
    );
}

#[test]
fn build_unknown_tool_errors() {
    let args = object(&[]);
    let err = build_command("does_not_exist", &args).unwrap_err();
    assert!(err.message().contains("Unknown tool"));
    assert_eq!(err, McpError::UnknownTool { name: "does_not_exist".to_string() });
    assert_eq!(err.message(), "Unknown tool: does_not_exist");
}

#[test]
fn quote_uses_single_quotes_when_value_has_double_quotes() {
    // String with whitespace + double quote → single-quoted result
    let result = quote("say \"hello\" world").unwrap();
    assert_eq!(result, "'say \"hello\" world'");
}

#[test]
fn quote_errors_on_both_quote_types() {
    let err = quote("it's a \"test\"").unwrap_err();
    assert!(err.message().contains("both single and double quotes"));
}

#[test]
fn quote_no_whitespace_is_unchanged() {
    assert_eq!(quote("coffee").unwrap(), "coffee");
}

#[test]
fn quote_wraps_text_with_whitespace_in_double_quotes() {
    assert_eq!(quote("lincoln park").unwrap(), "\"lincoln park\"");
    assert_eq!(quote("it's here").unwrap(), "\"it's here\"");
    assert_eq!(quote("tab\there").unwrap(), "\"tab\there\"");
    assert_eq!(quote("").unwrap(), "");
    // Quotes alone need no quoting.
    assert_eq!(quote("a\"b'c").unwrap(), "a\"b'c");
}

#[test]
fn unquotable_argument_is_shown_in_debug_form() {
    let err = quote("it's a \"test\"").unwrap_err();
    assert_eq!(err, McpError::Unquotable { value: "it's a \"test\"".to_string() });
    assert_eq!(
        err.message(),
        "Argument contains both single and double quotes and cannot be safely quoted: \"it's a \\\"test\\\"\""
    );
}

#[test]
fn missing_arguments_are_reported_in_order() {
    let mut args = ToolArguments::new();
    let err = command_for("ingest_csv", &args).unwrap_err();
    assert_eq!(err, McpError::MissingArgument { key: "db_path".to_string() });
    assert_eq!(err.message(), "Missing required argument: db_path");

    args.db_path = text("db");
    let err = command_for("ingest_csv", &args).unwrap_err();
    assert_eq!(err, McpError::MissingArgument { key: "csv_path".to_string() });

    let err = command_for("get_schema", &args).unwrap_err();
    assert_eq!(err, McpError::MissingArgument { key: "table_name".to_string() });

    let err = command_for("overture_extract", &args).unwrap_err();
    assert_eq!(err, McpError::MissingArgument { key: "theme".to_string() });
    args.theme = text("places");
    let err = command_for("overture_extract", &args).unwrap_err();
    assert_eq!(err, McpError::MissingArgument { key: "item_type".to_string() });
    args.item_type = text("place");
    let err = command_for("overture_extract", &args).unwrap_err();
    assert_eq!(err, McpError::MissingArgument { key: "bbox".to_string() });

    args.table_name = text("t");
    let err = command_for("overture_search", &args).unwrap_err();
    assert_eq!(err, McpError::MissingArgument { key: "query".to_string() });
    assert_eq!(McpError::MissingName.message(), "Missing required parameter: name");
}

#[test]
fn a_missing_argument_comes_before_an_unquotable_one() {
    let mut args = ToolArguments::new();
    args.db_path = text("a 'b' \"c\"");
    let err = command_for("ingest_csv", &args).unwrap_err();
    assert_eq!(err, McpError::MissingArgument { key: "csv_path".to_string() });
    args.csv_path = text("data.csv");
    let err = command_for("ingest_csv", &args).unwrap_err();
    assert_eq!(err, McpError::Unquotable { value: "a 'b' \"c\"".to_string() });
}

#[test]
fn limit_is_written_for_searches_only() {
    let mut args = ToolArguments::new();
    args.db_path = text("db");
    args.table_name = text("t");
    args.limit = Some(7);
    assert_eq!(command_for("get_schema", &args).unwrap(), "schema db t");
    args.query = text("q");
    assert_eq!(command_for("overture_geocode", &args).unwrap(), "overture_geocode db t q 7");
    args.limit = Some(u64::MAX);
    assert_eq!(
        command_for("overture_search", &args).unwrap(),
        "overture_search db t q 18446744073709551615"
    );
    args.limit = Some(0);
    assert_eq!(command_for("overture_search", &args).unwrap(), "overture_search db t q 0");
}

#[test]
fn a_built_command_reads_back_as_its_arguments() {
    let mut args = ToolArguments::new();
    args.db_path = text("/tmp/my db.duckdb");
    args.table_name = text("places_wa");
    args.query = text("o'hare airport");
    args.limit = Some(9);
    let line = command_for("overture_search", &args).unwrap();
    assert_eq!(
        tokenize(&line).unwrap(),
        vec![
            "overture_search".to_string(),
            "/tmp/my db.duckdb".to_string(),
            "places_wa".to_string(),
            "o'hare airport".to_string(),
            "9".to_string(),
        ]
    );
    assert_eq!(
        parse_command(&line).unwrap(),
        Command::OvertureSearch {
            db_path: "/tmp/my db.duckdb".to_string(),
            table_name: "places_wa".to_string(),
            query: "o'hare airport".to_string(),
            limit: 9,
        }
    );
}

#[test]
fn requests_are_routed_by_method() {
    assert_eq!(route("initialize"), RpcMethod::Initialize);
    assert_eq!(route("ping"), RpcMethod::Ping);
    assert_eq!(route("tools/list"), RpcMethod::ToolsList);
    assert_eq!(route("tools/call"), RpcMethod::ToolsCall);
    assert_eq!(route("unknown/method"), RpcMethod::Unknown);
    assert_eq!(route("Ping"), RpcMethod::Unknown);
    assert_eq!(method_to_answer(true, "ping"), Some(RpcMethod::Ping));
    assert_eq!(method_to_answer(true, "nope"), Some(RpcMethod::Unknown));
    // Notifications have no identifier and get no answer.
    assert_eq!(method_to_answer(false, "notifications/initialized"), None);
    assert_eq!(method_to_answer(false, "ping"), None);
}

#[test]
fn error_codes_and_messages_follow_the_protocol() {
    assert_eq!(PARSE_ERROR, -32700);
    assert_eq!(METHOD_NOT_FOUND, -32601);
    assert_eq!(INVALID_PARAMS, -32602);
    assert_eq!(INTERNAL_ERROR, -32603);
    assert_eq!(PROTOCOL_VERSION, "2024-11-05");
    assert_eq!(SERVER_NAME, "spatia-mcp");
    assert_eq!(SERVER_VERSION, "0.1.0");
    assert_eq!(method_not_found_message("unknown/method"), "Method not found: unknown/method");
    assert_eq!(parse_error_message("expected value"), "Parse error: expected value");
}

#[test]
fn arguments_are_read_from_the_members_of_an_object() {
    let args = object(&[
        ("db_path", string("/tmp/db")),
        ("table_name", string("t")),
        ("query", string("main st")),
        ("limit", Value::from(7u64)),
        ("theme", Value::Null),
        ("bbox", Value::Bool(true)),
        ("csv_path", Value::from(3u64)),
        ("extra", string("ignored")),
    ]);
    assert_eq!(
        tool_arguments(&args),
        ToolArguments {
            db_path: text("/tmp/db"),
            csv_path: None,
            table_name: text("t"),
            theme: None,
            item_type: None,
            bbox: None,
            query: text("main st"),
            limit: Some(7),
        }
    );
    assert_eq!(
        build_command("overture_search", &args).unwrap(),
        "overture_search /tmp/db t \"main st\" 7"
    );
    assert_eq!(tool_arguments(&Value::Null), ToolArguments::new());
    assert_eq!(tool_arguments(&Value::Array(vec![string("db_path")])), ToolArguments::new());
    assert_eq!(tool_arguments(&string("db_path")), ToolArguments::new());
}

#[test]
fn a_member_of_the_wrong_kind_counts_as_missing() {
    let args = object(&[("db_path", Value::from(1u64)), ("csv_path", string("data.csv"))]);
    assert_eq!(
        build_command("ingest_csv", &args).unwrap_err(),
        McpError::MissingArgument { key: "db_path".to_string() }
    );
    assert_eq!(
        build_command("ingest_csv", &Value::Null).unwrap_err(),
        McpError::MissingArgument { key: "db_path".to_string() }
    );
    assert_eq!(require_str(&args, "csv_path"), Ok("data.csv".to_string()));
    assert_eq!(
        require_str(&args, "db_path"),
        Err(McpError::MissingArgument { key: "db_path".to_string() })
    );
    assert_eq!(
        require_str(&args, "absent").unwrap_err().message(),
        "Missing required argument: absent"
    );
}

#[test]
fn a_limit_that_is_no_unsigned_integer_is_left_out() {
    let base = [
        ("db_path", string("db")),
        ("table_name", string("t")),
        ("query", string("q")),
    ];
    let limits = [
        string("5"),
        Value::from(-5i64),
        Value::Number(Number::from_f64(2.5).unwrap()),
        Value::Null,
        Value::Bool(true),
    ];
    for limit in limits {
        let mut members = base.to_vec();
        members.push(("limit", limit));
        assert_eq!(
            build_command("overture_search", &object(&members)).unwrap(),
            "overture_search db t q"
        );
    }
    let mut members = base.to_vec();
    members.push(("limit", Value::from(u64::MAX)));
    assert_eq!(
        build_command("overture_geocode", &object(&members)).unwrap(),
        "overture_geocode db t q 18446744073709551615"
    );
}

#[test]
fn tool_is_named_by_the_parameters() {
    let params = object(&[("name", string("get_schema")), ("arguments", object(&[]))]);
    assert_eq!(tool_name(&params), Ok("get_schema".to_string()));
    assert_eq!(tool_name(&object(&[("name", Value::from(1u64))])), Err(McpError::MissingName));
    assert_eq!(tool_name(&object(&[])), Err(McpError::MissingName));
    assert_eq!(tool_name(&Value::Null), Err(McpError::MissingName));
}
