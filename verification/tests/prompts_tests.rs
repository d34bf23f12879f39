use spatia::{
    build_analysis_chat_system_prompt, build_analysis_sql_prompt, build_clean_prompt,
    build_visualization_command_prompt, TableColumn,
};

fn sample_schema() -> Vec<TableColumn> {
    vec![
        TableColumn {
            cid: 0,
            name: "id".to_string(),
            data_type: "INTEGER".to_string(),
            notnull: true,
            default_value: None,
            primary_key: true,
        },
        TableColumn {
            cid: 1,
            name: "city".to_string(),
            data_type: "VARCHAR".to_string(),
            notnull: false,
            default_value: None,
            primary_key: false,
        },
    ]
}

#[test]
fn prompt_contains_table_name() {
    let prompt = build_clean_prompt("raw_staging", &sample_schema(), "1,Seattle\n2,portland");
    assert!(prompt.contains("raw_staging"));
}

#[test]
fn prompt_contains_column_names() {
    let prompt = build_clean_prompt("raw_staging", &sample_schema(), "");
    assert!(prompt.contains("id"));
    assert!(prompt.contains("city"));
}

#[test]
fn prompt_contains_sample_rows() {
    let rows = "1,Seattle\n2,portland";
    let prompt = build_clean_prompt("my_table", &sample_schema(), rows);
    assert!(prompt.contains("Seattle"));
    assert!(prompt.contains("portland"));
}

#[test]
fn prompt_contains_update_instruction() {
    let prompt = build_clean_prompt("raw_staging", &sample_schema(), "");
    assert!(prompt.contains("UPDATE"));
}

#[test]
fn analysis_system_prompt_contains_schema_context() {
    let prompt = build_analysis_chat_system_prompt("places", &sample_schema());
    assert!(prompt.contains("Active table"));
    assert!(prompt.contains("places"));
    assert!(prompt.contains("id"));
    assert!(prompt.contains("city"));
}

#[test]
fn analysis_sql_prompt_requires_analysis_result_view() {
    let prompt = build_analysis_sql_prompt(
        "places",
        &sample_schema(),
        "find top cities by record count",
    );
    assert!(prompt.contains("analysis_result"));
    assert!(prompt.contains("CREATE OR REPLACE VIEW"));
    assert!(prompt.contains("find top cities by record count"));
}

#[test]
fn visualization_prompt_requires_json_shape() {
    let prompt = build_visualization_command_prompt("analysis_result", "show hotspots");
    assert!(prompt.contains("{\"visualization\":\"scatter\"}"));
    assert!(prompt.contains("scatter, heatmap, hexbin"));
}

#[test]
fn clean_prompt_is_exact() {
    let prompt = build_clean_prompt("t", &sample_schema(), "1,Seattle");
    let expected = "You are an expert data-cleaning assistant.\n\
Your task is to write DuckDB SQL UPDATE statements that fix data quality issues\n\
in the table `t`.\n\
\n\
## Table schema\n\
\x20 id INTEGER (not_null: true)\n\
\x20 city VARCHAR (not_null: false)\n\
\n\
## Sample rows (up to 20)\n\
1,Seattle\n\
\n\
## Instructions\n\
1. Inspect the sample rows for common data-quality problems such as:\n\
\x20  - Leading/trailing whitespace in text columns.\n\
\x20  - Inconsistent casing (e.g., mixed upper/lower case city names).\n\
\x20  - Obvious null sentinels stored as strings (e.g., \"N/A\", \"null\", \"none\", \"\u{2013}\").\n\
\x20  - Numeric values stored as strings with extra punctuation (e.g., \"$1,200.00\").\n\
2. Write minimal, targeted DuckDB `UPDATE t SET ... WHERE ...` statements\n\
\x20  that fix each identified problem.\n\
3. Return ONLY valid DuckDB SQL statements, one per line.\n\
\x20  Do NOT include explanations, markdown fences, or any other text.\n\
\x20  If no cleaning is needed, return the single comment: -- no changes needed\n";
    assert_eq!(prompt, expected);
}

#[test]
fn analysis_chat_prompt_is_exact() {
    let prompt = build_analysis_chat_system_prompt("places", &sample_schema());
    let expected = "You are Spatia's SQL analysis assistant.\n\
You are helping the user analyze geospatial data in DuckDB.\n\
\n\
## Active table\n\
places\n\
\n\
## Current schema\n\
\x20 - id INTEGER (not_null: true, primary_key: true)\n\
\x20 - city VARCHAR (not_null: false, primary_key: false)\n\
\n\
## Rules\n\
1. Ground your response in the provided schema.\n\
2. Prefer DuckDB SQL that can run as-is.\n\
3. If a requested field does not exist, state that clearly and suggest an alternative.\n\
4. Keep responses concise and action-oriented.\n";
    assert_eq!(prompt, expected);
}

#[test]
fn analysis_sql_prompt_trims_the_goal() {
    let prompt = build_analysis_sql_prompt("places", &[], "  count rows \n");
    let expected = "You are Spatia's DuckDB analysis SQL assistant.\n\
\n\
## Input table\n\
places\n\
\n\
## Current schema\n\
\n\
\n\
## User goal\n\
count rows\n\
\n\
## Requirements\n\
1. Return exactly one DuckDB SQL statement.\n\
2. The SQL must be `CREATE OR REPLACE VIEW analysis_result AS ...`.\n\
3. Use only columns present in the schema.\n\
4. Do not include markdown, comments, or explanation text.\n";
    assert_eq!(prompt, expected);
}

#[test]
fn visualization_prompt_is_exact() {
    let prompt = build_visualization_command_prompt("analysis_result", " show hotspots ");
    let expected = "You are Spatia's visualization planner.\n\
\n\
## Input context\n\
- table: analysis_result\n\
- goal: show hotspots\n\
\n\
Return ONLY compact JSON in this exact shape:\n\
{\"visualization\":\"scatter\"}\n\
\n\
Allowed visualization values: scatter, heatmap, hexbin.\n\
No markdown. No explanation.\n";
    assert_eq!(prompt, expected);
}
