//! The prompts that ask a language model for statements, commands and
//! answers about a table. Each prompt is a fixed text with the table, its
//! columns and the request of the user filled in.

use crate::schema::{ColumnModel, TableColumn};
use crate::text::{
    holds_text, join, joined_with, lemma_holds_at_end, lemma_holds_behind, lemma_holds_on,
    lemma_holds_within, lemma_joined_holds, trim, trimmed,
};
use vstd::prelude::*;

verus! {

/// `true` or `false`, as text.
pub open spec fn bool_text(b: bool) -> Seq<char> {
    if b {
        "true"@
    } else {
        "false"@
    }
}

/// `true` or `false`, as text.
pub fn bool_str(b: bool) -> (r: &'static str)
    ensures
        r@ == bool_text(b),
{
    if b {
        "true"
    } else {
        "false"
    }
}

/// The line that describes a column to the cleaning prompt.
pub open spec fn clean_line(col: ColumnModel) -> Seq<char> {
    "  "@ + col.name + " "@ + col.data_type + " (not_null: "@ + bool_text(col.notnull) + ")"@
}

/// The line that describes a column to the analysis prompts.
pub open spec fn analysis_line(col: ColumnModel) -> Seq<char> {
    "  - "@ + col.name + " "@ + col.data_type + " (not_null: "@ + bool_text(col.notnull)
        + ", primary_key: "@ + bool_text(col.primary_key) + ")"@
}

/// The lines that describe the columns to the cleaning prompt.
pub open spec fn clean_lines(schema: Seq<ColumnModel>) -> Seq<Seq<char>> {
    Seq::new(schema.len(), |i: int| clean_line(schema[i]))
}

/// The lines that describe the columns to the analysis prompts.
pub open spec fn analysis_lines(schema: Seq<ColumnModel>) -> Seq<Seq<char>> {
    Seq::new(schema.len(), |i: int| analysis_line(schema[i]))
}

fn clean_schema_lines(schema: &[TableColumn]) -> (r: Vec<String>)
    ensures
        r.deep_view() == clean_lines(schema.deep_view()),
{
    let mut r: Vec<String> = Vec::new();
    let mut i: usize = 0;
    while i < schema.len()
        invariant
            i <= schema.len(),
            r.len() == i,
            forall|k: int| 0 <= k < i ==> r.deep_view()[k] == clean_line(schema.deep_view()[k]),
        decreases schema.len() - i,
    {
        let ghost before = r.deep_view();
        let col = &schema[i];
        assert(schema.deep_view()[i as int] == col@);
        let mut line = "  ".to_owned();
        line.append(col.name.as_str());
        line.append(" ");
        line.append(col.data_type.as_str());
        line.append(" (not_null: ");
        line.append(bool_str(col.notnull));
        line.append(")");
        r.push(line);
        assert(r.deep_view() =~= before.push(line@));
        i += 1;
    }
    assert(r.deep_view() =~= clean_lines(schema.deep_view()));
    r
}

fn analysis_schema_lines(schema: &[TableColumn]) -> (r: Vec<String>)
    ensures
        r.deep_view() == analysis_lines(schema.deep_view()),
{
    let mut r: Vec<String> = Vec::new();
    let mut i: usize = 0;
    while i < schema.len()
        invariant
            i <= schema.len(),
            r.len() == i,
            forall|k: int| 0 <= k < i ==> r.deep_view()[k] == analysis_line(schema.deep_view()[k]),
        decreases schema.len() - i,
    {
        let ghost before = r.deep_view();
        let col = &schema[i];
        assert(schema.deep_view()[i as int] == col@);
        let mut line = "  - ".to_owned();
        line.append(col.name.as_str());
        line.append(" ");
        line.append(col.data_type.as_str());
        line.append(" (not_null: ");
        line.append(bool_str(col.notnull));
        line.append(", primary_key: ");
        line.append(bool_str(col.primary_key));
        line.append(")");
        r.push(line);
        assert(r.deep_view() =~= before.push(line@));
        i += 1;
    }
    assert(r.deep_view() =~= analysis_lines(schema.deep_view()));
    r
}

/// The text of the cleaning prompt.
pub open spec fn clean_prompt_text(table: Seq<char>, schema: Seq<ColumnModel>, rows: Seq<char>) -> Seq<
    char,
> {
    "You are an expert data-cleaning assistant.\n"@
        + "Your task is to write DuckDB SQL UPDATE statements that fix data quality issues\n"@
        + "in the table `"@
        + table
        + "`.\n"@
        + "\n"@
        + "## Table schema\n"@
        + joined_with(clean_lines(schema), "\n"@)
        + "\n"@
        + "\n"@
        + "## Sample rows (up to 20)\n"@
        + rows
        + "\n"@
        + "\n"@
        + "## Instructions\n"@
        + "1. Inspect the sample rows for common data-quality problems such as:\n"@
        + "   - Leading/trailing whitespace in text columns.\n"@
        + "   - Inconsistent casing (e.g., mixed upper/lower case city names).\n"@
        + "   - Obvious null sentinels stored as strings (e.g., \"N/A\", \"null\", \"none\", \"\u{2013}\").\n"@
        + "   - Numeric values stored as strings with extra punctuation (e.g., \"$1,200.00\").\n"@
        + "2. Write minimal, targeted DuckDB `UPDATE "@
        + table
        + " SET ... WHERE ...` statements\n"@
        + "   that fix each identified problem.\n"@
        + "3. Return ONLY valid DuckDB SQL statements, one per line.\n"@
        + "   Do NOT include explanations, markdown fences, or any other text.\n"@
        + "   If no cleaning is needed, return the single comment: -- no changes needed\n"@
}

/// The prompt that asks for `UPDATE` statements that clean `table_name`:
/// the fixed instructions with the table, one line for each column and the
/// sample rows filled in.
pub fn build_clean_prompt(table_name: &str, schema: &[TableColumn], sample_rows: &str) -> (r: String)
    ensures
        r@ == clean_prompt_text(table_name@, schema.deep_view(), sample_rows@),
{
    let lines = clean_schema_lines(schema);
    let schema_text = join(lines.as_slice(), "\n");
    let mut r = "You are an expert data-cleaning assistant.\n".to_owned();
    r.append("Your task is to write DuckDB SQL UPDATE statements that fix data quality issues\n");
    r.append("in the table `");
    r.append(table_name);
    r.append("`.\n");
    r.append("\n");
    r.append("## Table schema\n");
    r.append(schema_text.as_str());
    r.append("\n");
    r.append("\n");
    r.append("## Sample rows (up to 20)\n");
    r.append(sample_rows);
    r.append("\n");
    r.append("\n");
    r.append("## Instructions\n");
    r.append("1. Inspect the sample rows for common data-quality problems such as:\n");
    r.append("   - Leading/trailing whitespace in text columns.\n");
    r.append("   - Inconsistent casing (e.g., mixed upper/lower case city names).\n");
    r.append("   - Obvious null sentinels stored as strings (e.g., \"N/A\", \"null\", \"none\", \"\u{2013}\").\n");
    r.append("   - Numeric values stored as strings with extra punctuation (e.g., \"$1,200.00\").\n");
    r.append("2. Write minimal, targeted DuckDB `UPDATE ");
    r.append(table_name);
    r.append(" SET ... WHERE ...` statements\n");
    r.append("   that fix each identified problem.\n");
    r.append("3. Return ONLY valid DuckDB SQL statements, one per line.\n");
    r.append("   Do NOT include explanations, markdown fences, or any other text.\n");
    r.append("   If no cleaning is needed, return the single comment: -- no changes needed\n");
    r
}

/// The text of the system prompt for analysis chat.
pub open spec fn analysis_chat_text(table: Seq<char>, schema: Seq<ColumnModel>) -> Seq<char> {
    "You are Spatia's SQL analysis assistant.\n"@
        + "You are helping the user analyze geospatial data in DuckDB.\n"@
        + "\n"@
        + "## Active table\n"@
        + table
        + "\n"@
        + "\n"@
        + "## Current schema\n"@
        + joined_with(analysis_lines(schema), "\n"@)
        + "\n"@
        + "\n"@
        + "## Rules\n"@
        + "1. Ground your response in the provided schema.\n"@
        + "2. Prefer DuckDB SQL that can run as-is.\n"@
        + "3. If a requested field does not exist, state that clearly and suggest an alternative.\n"@
        + "4. Keep responses concise and action-oriented.\n"@
}

/// The system prompt for analysis chat: the fixed rules with the table and
/// one line for each column filled in.
pub fn build_analysis_chat_system_prompt(table_name: &str, schema: &[TableColumn]) -> (r: String)
    ensures
        r@ == analysis_chat_text(table_name@, schema.deep_view()),
{
    let lines = analysis_schema_lines(schema);
    let schema_text = join(lines.as_slice(), "\n");
    let mut r = "You are Spatia's SQL analysis assistant.\n".to_owned();
    r.append("You are helping the user analyze geospatial data in DuckDB.\n");
    r.append("\n");
    r.append("## Active table\n");
    r.append(table_name);
    r.append("\n");
    r.append("\n");
    r.append("## Current schema\n");
    r.append(schema_text.as_str());
    r.append("\n");
    r.append("\n");
    r.append("## Rules\n");
    r.append("1. Ground your response in the provided schema.\n");
    r.append("2. Prefer DuckDB SQL that can run as-is.\n");
    r.append("3. If a requested field does not exist, state that clearly and suggest an alternative.\n");
    r.append("4. Keep responses concise and action-oriented.\n");
    r
}

/// The text of the prompt for an analysis statement.
pub open spec fn analysis_sql_text(table: Seq<char>, schema: Seq<ColumnModel>, goal: Seq<char>) -> Seq<
    char,
> {
    "You are Spatia's DuckDB analysis SQL assistant.\n"@
        + "\n"@
        + "## Input table\n"@
        + table
        + "\n"@
        + "\n"@
        + "## Current schema\n"@
        + joined_with(analysis_lines(schema), "\n"@)
        + "\n"@
        + "\n"@
        + "## User goal\n"@
        + trimmed(goal)
        + "\n"@
        + "\n"@
        + "## Requirements\n"@
        + "1. Return exactly one DuckDB SQL statement.\n"@
        + "2. The SQL must be `CREATE OR REPLACE VIEW analysis_result AS ...`.\n"@
        + "3. Use only columns present in the schema.\n"@
        + "4. Do not include markdown, comments, or explanation text.\n"@
}

/// The prompt that asks for one statement that creates the view
/// `analysis_result`: the fixed requirements with the table, one line for
/// each column and the goal of the user, trimmed, filled in.
pub fn build_analysis_sql_prompt(table_name: &str, schema: &[TableColumn], user_goal: &str) -> (r:
    String)
    ensures
        r@ == analysis_sql_text(table_name@, schema.deep_view(), user_goal@),
{
    let lines = analysis_schema_lines(schema);
    let schema_text = join(lines.as_slice(), "\n");
    let goal = trim(user_goal);
    let mut r = "You are Spatia's DuckDB analysis SQL assistant.\n".to_owned();
    r.append("\n");
    r.append("## Input table\n");
    r.append(table_name);
    r.append("\n");
    r.append("\n");
    r.append("## Current schema\n");
    r.append(schema_text.as_str());
    r.append("\n");
    r.append("\n");
    r.append("## User goal\n");
    r.append(goal.as_str());
    r.append("\n");
    r.append("\n");
    r.append("## Requirements\n");
    r.append("1. Return exactly one DuckDB SQL statement.\n");
    r.append("2. The SQL must be `CREATE OR REPLACE VIEW analysis_result AS ...`.\n");
    r.append("3. Use only columns present in the schema.\n");
    r.append("4. Do not include markdown, comments, or explanation text.\n");
    r
}

/// The text of the prompt for a visualization command.
pub open spec fn visualization_text(table: Seq<char>, goal: Seq<char>) -> Seq<char> {
    "You are Spatia's visualization planner.\n"@
        + "\n"@
        + "## Input context\n"@
        + "- table: "@
        + table
        + "\n"@
        + "- goal: "@
        + trimmed(goal)
        + "\n"@
        + "\n"@
        + "Return ONLY compact JSON in this exact shape:\n"@
        + "{\"visualization\":\"scatter\"}\n"@
        + "\n"@
        + "Allowed visualization values: scatter, heatmap, hexbin.\n"@
        + "No markdown. No explanation.\n"@
}

/// The prompt that asks for a visualization command as compact JSON: the
/// fixed shape with the table and the goal of the user, trimmed, filled in.
pub fn build_visualization_command_prompt(table_name: &str, user_goal: &str) -> (r: String)
    ensures
        r@ == visualization_text(table_name@, user_goal@),
{
    let goal = trim(user_goal);
    let mut r = "You are Spatia's visualization planner.\n".to_owned();
    r.append("\n");
    r.append("## Input context\n");
    r.append("- table: ");
    r.append(table_name);
    r.append("\n");
    r.append("- goal: ");
    r.append(goal.as_str());
    r.append("\n");
    r.append("\n");
    r.append("Return ONLY compact JSON in this exact shape:\n");
    r.append("{\"visualization\":\"scatter\"}\n");
    r.append("\n");
    r.append("Allowed visualization values: scatter, heatmap, hexbin.\n");
    r.append("No markdown. No explanation.\n");
    r
}

/// The name and the type of a column stand in its line of the cleaning
/// prompt.
proof fn lemma_clean_line_holds(col: ColumnModel)
    ensures
        holds_text(clean_line(col), col.name),
        holds_text(clean_line(col), col.data_type),
{
    let t0 = "  "@;
    let t1 = t0 + col.name;
    let t2 = t1 + " "@;
    let t3 = t2 + col.data_type;
    let t4 = t3 + " (not_null: "@;
    let t5 = t4 + bool_text(col.notnull);
    lemma_holds_at_end(t0, col.name);
    lemma_holds_on(t1, col.name, " "@);
    lemma_holds_on(t2, col.name, col.data_type);
    lemma_holds_on(t3, col.name, " (not_null: "@);
    lemma_holds_on(t4, col.name, bool_text(col.notnull));
    lemma_holds_on(t5, col.name, ")"@);
    lemma_holds_at_end(t2, col.data_type);
    lemma_holds_on(t3, col.data_type, " (not_null: "@);
    lemma_holds_on(t4, col.data_type, bool_text(col.notnull));
    lemma_holds_on(t5, col.data_type, ")"@);
}

/// The name and the type of a column stand in its line of the analysis
/// prompts.
proof fn lemma_analysis_line_holds(col: ColumnModel)
    ensures
        holds_text(analysis_line(col), col.name),
        holds_text(analysis_line(col), col.data_type),
{
    let t0 = "  - "@;
    let t1 = t0 + col.name;
    let t2 = t1 + " "@;
    let t3 = t2 + col.data_type;
    let t4 = t3 + " (not_null: "@;
    let t5 = t4 + bool_text(col.notnull);
    let t6 = t5 + ", primary_key: "@;
    let t7 = t6 + bool_text(col.primary_key);
    lemma_holds_at_end(t0, col.name);
    lemma_holds_on(t1, col.name, " "@);
    lemma_holds_on(t2, col.name, col.data_type);
    lemma_holds_on(t3, col.name, " (not_null: "@);
    lemma_holds_on(t4, col.name, bool_text(col.notnull));
    lemma_holds_on(t5, col.name, ", primary_key: "@);
    lemma_holds_on(t6, col.name, bool_text(col.primary_key));
    lemma_holds_on(t7, col.name, ")"@);
    lemma_holds_at_end(t2, col.data_type);
    lemma_holds_on(t3, col.data_type, " (not_null: "@);
    lemma_holds_on(t4, col.data_type, bool_text(col.notnull));
    lemma_holds_on(t5, col.data_type, ", primary_key: "@);
    lemma_holds_on(t6, col.data_type, bool_text(col.primary_key));
    lemma_holds_on(t7, col.data_type, ")"@);
}

/// The cleaning prompt holds the name of the table, the name and the type
/// of every column, the sample rows as they are given, and the word
/// `UPDATE`.
pub proof fn law_clean_prompt_holds_its_parts(table: Seq<char>, schema: Seq<ColumnModel>, rows: Seq<char>)
    ensures
        holds_text(clean_prompt_text(table, schema, rows), table),
        holds_text(clean_prompt_text(table, schema, rows), rows),
        holds_text(clean_prompt_text(table, schema, rows), joined_with(clean_lines(schema), "\n"@)),
        holds_text(clean_prompt_text(table, schema, rows), "UPDATE"@),
        forall|k: int|
            0 <= k < schema.len() ==> holds_text(clean_prompt_text(table, schema, rows), (#[trigger] schema[k]).name)
                && holds_text(clean_prompt_text(table, schema, rows), schema[k].data_type),
{
    let t0 = "You are an expert data-cleaning assistant.\n"@;
    let t1 = t0 + "Your task is to write DuckDB SQL UPDATE statements that fix data quality issues\n"@;
    let t2 = t1 + "in the table `"@;
    let t3 = t2 + table;
    let t4 = t3 + "`.\n"@;
    let t5 = t4 + "\n"@;
    let t6 = t5 + "## Table schema\n"@;
    let t7 = t6 + joined_with(clean_lines(schema), "\n"@);
    let t8 = t7 + "\n"@;
    let t9 = t8 + "\n"@;
    let t10 = t9 + "## Sample rows (up to 20)\n"@;
    let t11 = t10 + rows;
    let t12 = t11 + "\n"@;
    let t13 = t12 + "\n"@;
    let t14 = t13 + "## Instructions\n"@;
    let t15 = t14 + "1. Inspect the sample rows for common data-quality problems such as:\n"@;
    let t16 = t15 + "   - Leading/trailing whitespace in text columns.\n"@;
    let t17 = t16 + "   - Inconsistent casing (e.g., mixed upper/lower case city names).\n"@;
    let t18 = t17 + "   - Obvious null sentinels stored as strings (e.g., \"N/A\", \"null\", \"none\", \"\u{2013}\").\n"@;
    let t19 = t18 + "   - Numeric values stored as strings with extra punctuation (e.g., \"$1,200.00\").\n"@;
    let t20 = t19 + "2. Write minimal, targeted DuckDB `UPDATE "@;
    let t21 = t20 + table;
    let t22 = t21 + " SET ... WHERE ...` statements\n"@;
    let t23 = t22 + "   that fix each identified problem.\n"@;
    let t24 = t23 + "3. Return ONLY valid DuckDB SQL statements, one per line.\n"@;
    let t25 = t24 + "   Do NOT include explanations, markdown fences, or any other text.\n"@;
    let t26 = t25 + "   If no cleaning is needed, return the single comment: -- no changes needed\n"@;
    lemma_holds_at_end(t2, table);
    lemma_holds_on(t3, table, "`.\n"@);
    lemma_holds_on(t4, table, "\n"@);
    lemma_holds_on(t5, table, "## Table schema\n"@);
    lemma_holds_on(t6, table, joined_with(clean_lines(schema), "\n"@));
    lemma_holds_on(t7, table, "\n"@);
    lemma_holds_on(t8, table, "\n"@);
    lemma_holds_on(t9, table, "## Sample rows (up to 20)\n"@);
    lemma_holds_on(t10, table, rows);
    lemma_holds_on(t11, table, "\n"@);
    lemma_holds_on(t12, table, "\n"@);
    lemma_holds_on(t13, table, "## Instructions\n"@);
    lemma_holds_on(t14, table, "1. Inspect the sample rows for common data-quality problems such as:\n"@);
    lemma_holds_on(t15, table, "   - Leading/trailing whitespace in text columns.\n"@);
    lemma_holds_on(t16, table, "   - Inconsistent casing (e.g., mixed upper/lower case city names).\n"@);
    lemma_holds_on(t17, table, "   - Obvious null sentinels stored as strings (e.g., \"N/A\", \"null\", \"none\", \"\u{2013}\").\n"@);
    lemma_holds_on(t18, table, "   - Numeric values stored as strings with extra punctuation (e.g., \"$1,200.00\").\n"@);
    lemma_holds_on(t19, table, "2. Write minimal, targeted DuckDB `UPDATE "@);
    lemma_holds_on(t20, table, table);
    lemma_holds_on(t21, table, " SET ... WHERE ...` statements\n"@);
    lemma_holds_on(t22, table, "   that fix each identified problem.\n"@);
    lemma_holds_on(t23, table, "3. Return ONLY valid DuckDB SQL statements, one per line.\n"@);
    lemma_holds_on(t24, table, "   Do NOT include explanations, markdown fences, or any other text.\n"@);
    lemma_holds_on(t25, table, "   If no cleaning is needed, return the single comment: -- no changes needed\n"@);
    lemma_holds_at_end(t10, rows);
    lemma_holds_on(t11, rows, "\n"@);
    lemma_holds_on(t12, rows, "\n"@);
    lemma_holds_on(t13, rows, "## Instructions\n"@);
    lemma_holds_on(t14, rows, "1. Inspect the sample rows for common data-quality problems such as:\n"@);
    lemma_holds_on(t15, rows, "   - Leading/trailing whitespace in text columns.\n"@);
    lemma_holds_on(t16, rows, "   - Inconsistent casing (e.g., mixed upper/lower case city names).\n"@);
    lemma_holds_on(t17, rows, "   - Obvious null sentinels stored as strings (e.g., \"N/A\", \"null\", \"none\", \"\u{2013}\").\n"@);
    lemma_holds_on(t18, rows, "   - Numeric values stored as strings with extra punctuation (e.g., \"$1,200.00\").\n"@);
    lemma_holds_on(t19, rows, "2. Write minimal, targeted DuckDB `UPDATE "@);
    lemma_holds_on(t20, rows, table);
    lemma_holds_on(t21, rows, " SET ... WHERE ...` statements\n"@);
    lemma_holds_on(t22, rows, "   that fix each identified problem.\n"@);
    lemma_holds_on(t23, rows, "3. Return ONLY valid DuckDB SQL statements, one per line.\n"@);
    lemma_holds_on(t24, rows, "   Do NOT include explanations, markdown fences, or any other text.\n"@);
    lemma_holds_on(t25, rows, "   If no cleaning is needed, return the single comment: -- no changes needed\n"@);
    lemma_holds_at_end(t6, joined_with(clean_lines(schema), "\n"@));
    lemma_holds_on(t7, joined_with(clean_lines(schema), "\n"@), "\n"@);
    lemma_holds_on(t8, joined_with(clean_lines(schema), "\n"@), "\n"@);
    lemma_holds_on(t9, joined_with(clean_lines(schema), "\n"@), "## Sample rows (up to 20)\n"@);
    lemma_holds_on(t10, joined_with(clean_lines(schema), "\n"@), rows);
    lemma_holds_on(t11, joined_with(clean_lines(schema), "\n"@), "\n"@);
    lemma_holds_on(t12, joined_with(clean_lines(schema), "\n"@), "\n"@);
    lemma_holds_on(t13, joined_with(clean_lines(schema), "\n"@), "## Instructions\n"@);
    lemma_holds_on(t14, joined_with(clean_lines(schema), "\n"@), "1. Inspect the sample rows for common data-quality problems such as:\n"@);
    lemma_holds_on(t15, joined_with(clean_lines(schema), "\n"@), "   - Leading/trailing whitespace in text columns.\n"@);
    lemma_holds_on(t16, joined_with(clean_lines(schema), "\n"@), "   - Inconsistent casing (e.g., mixed upper/lower case city names).\n"@);
    lemma_holds_on(t17, joined_with(clean_lines(schema), "\n"@), "   - Obvious null sentinels stored as strings (e.g., \"N/A\", \"null\", \"none\", \"\u{2013}\").\n"@);
    lemma_holds_on(t18, joined_with(clean_lines(schema), "\n"@), "   - Numeric values stored as strings with extra punctuation (e.g., \"$1,200.00\").\n"@);
    lemma_holds_on(t19, joined_with(clean_lines(schema), "\n"@), "2. Write minimal, targeted DuckDB `UPDATE "@);
    lemma_holds_on(t20, joined_with(clean_lines(schema), "\n"@), table);
    lemma_holds_on(t21, joined_with(clean_lines(schema), "\n"@), " SET ... WHERE ...` statements\n"@);
    lemma_holds_on(t22, joined_with(clean_lines(schema), "\n"@), "   that fix each identified problem.\n"@);
    lemma_holds_on(t23, joined_with(clean_lines(schema), "\n"@), "3. Return ONLY valid DuckDB SQL statements, one per line.\n"@);
    lemma_holds_on(t24, joined_with(clean_lines(schema), "\n"@), "   Do NOT include explanations, markdown fences, or any other text.\n"@);
    lemma_holds_on(t25, joined_with(clean_lines(schema), "\n"@), "   If no cleaning is needed, return the single comment: -- no changes needed\n"@);
    assert(holds_text("Your task is to write DuckDB SQL UPDATE statements that fix data quality issues\n"@, "UPDATE"@)) by {
        reveal_strlit("Your task is to write DuckDB SQL UPDATE statements that fix data quality issues\n");
        reveal_strlit("UPDATE");
        assert("Your task is to write DuckDB SQL UPDATE statements that fix data quality issues\n"@.subrange(33int, 33int + "UPDATE"@.len()) =~= "UPDATE"@);
    }
    lemma_holds_behind(t0, "Your task is to write DuckDB SQL UPDATE statements that fix data quality issues\n"@, "UPDATE"@);
    lemma_holds_on(t1, "UPDATE"@, "in the table `"@);
    lemma_holds_on(t2, "UPDATE"@, table);
    lemma_holds_on(t3, "UPDATE"@, "`.\n"@);
    lemma_holds_on(t4, "UPDATE"@, "\n"@);
    lemma_holds_on(t5, "UPDATE"@, "## Table schema\n"@);
    lemma_holds_on(t6, "UPDATE"@, joined_with(clean_lines(schema), "\n"@));
    lemma_holds_on(t7, "UPDATE"@, "\n"@);
    lemma_holds_on(t8, "UPDATE"@, "\n"@);
    lemma_holds_on(t9, "UPDATE"@, "## Sample rows (up to 20)\n"@);
    lemma_holds_on(t10, "UPDATE"@, rows);
    lemma_holds_on(t11, "UPDATE"@, "\n"@);
    lemma_holds_on(t12, "UPDATE"@, "\n"@);
    lemma_holds_on(t13, "UPDATE"@, "## Instructions\n"@);
    lemma_holds_on(t14, "UPDATE"@, "1. Inspect the sample rows for common data-quality problems such as:\n"@);
    lemma_holds_on(t15, "UPDATE"@, "   - Leading/trailing whitespace in text columns.\n"@);
    lemma_holds_on(t16, "UPDATE"@, "   - Inconsistent casing (e.g., mixed upper/lower case city names).\n"@);
    lemma_holds_on(t17, "UPDATE"@, "   - Obvious null sentinels stored as strings (e.g., \"N/A\", \"null\", \"none\", \"\u{2013}\").\n"@);
    lemma_holds_on(t18, "UPDATE"@, "   - Numeric values stored as strings with extra punctuation (e.g., \"$1,200.00\").\n"@);
    lemma_holds_on(t19, "UPDATE"@, "2. Write minimal, targeted DuckDB `UPDATE "@);
    lemma_holds_on(t20, "UPDATE"@, table);
    lemma_holds_on(t21, "UPDATE"@, " SET ... WHERE ...` statements\n"@);
    lemma_holds_on(t22, "UPDATE"@, "   that fix each identified problem.\n"@);
    lemma_holds_on(t23, "UPDATE"@, "3. Return ONLY valid DuckDB SQL statements, one per line.\n"@);
    lemma_holds_on(t24, "UPDATE"@, "   Do NOT include explanations, markdown fences, or any other text.\n"@);
    lemma_holds_on(t25, "UPDATE"@, "   If no cleaning is needed, return the single comment: -- no changes needed\n"@);
    assert(t26 == clean_prompt_text(table, schema, rows));
    assert forall|k: int| 0 <= k < schema.len() implies holds_text(
        clean_prompt_text(table, schema, rows),
        (#[trigger] schema[k]).name,
    ) && holds_text(clean_prompt_text(table, schema, rows), schema[k].data_type) by {
        let lines = clean_lines(schema);
        let joined = joined_with(lines, "\n"@);
        lemma_joined_holds(lines, "\n"@, k);
        lemma_clean_line_holds(schema[k]);
        lemma_holds_within(joined, clean_line(schema[k]), schema[k].name);
        lemma_holds_within(joined, clean_line(schema[k]), schema[k].data_type);
        lemma_holds_within(clean_prompt_text(table, schema, rows), joined, schema[k].name);
        lemma_holds_within(clean_prompt_text(table, schema, rows), joined, schema[k].data_type);
    }
}

/// The system prompt for analysis chat holds the name of the table under
/// the heading `Active table`, and the name and the type of every column.
pub proof fn law_analysis_chat_prompt_holds_its_parts(table: Seq<char>, schema: Seq<ColumnModel>)
    ensures
        holds_text(analysis_chat_text(table, schema), table),
        holds_text(analysis_chat_text(table, schema), joined_with(analysis_lines(schema), "\n"@)),
        holds_text(analysis_chat_text(table, schema), "Active table"@),
        forall|k: int|
            0 <= k < schema.len() ==> holds_text(analysis_chat_text(table, schema), (#[trigger] schema[k]).name)
                && holds_text(analysis_chat_text(table, schema), schema[k].data_type),
{
    let t0 = "You are Spatia's SQL analysis assistant.\n"@;
    let t1 = t0 + "You are helping the user analyze geospatial data in DuckDB.\n"@;
    let t2 = t1 + "\n"@;
    let t3 = t2 + "## Active table\n"@;
    let t4 = t3 + table;
    let t5 = t4 + "\n"@;
    let t6 = t5 + "\n"@;
    let t7 = t6 + "## Current schema\n"@;
    let t8 = t7 + joined_with(analysis_lines(schema), "\n"@);
    let t9 = t8 + "\n"@;
    let t10 = t9 + "\n"@;
    let t11 = t10 + "## Rules\n"@;
    let t12 = t11 + "1. Ground your response in the provided schema.\n"@;
    let t13 = t12 + "2. Prefer DuckDB SQL that can run as-is.\n"@;
    let t14 = t13 + "3. If a requested field does not exist, state that clearly and suggest an alternative.\n"@;
    let t15 = t14 + "4. Keep responses concise and action-oriented.\n"@;
    lemma_holds_at_end(t3, table);
    lemma_holds_on(t4, table, "\n"@);
    lemma_holds_on(t5, table, "\n"@);
    lemma_holds_on(t6, table, "## Current schema\n"@);
    lemma_holds_on(t7, table, joined_with(analysis_lines(schema), "\n"@));
    lemma_holds_on(t8, table, "\n"@);
    lemma_holds_on(t9, table, "\n"@);
    lemma_holds_on(t10, table, "## Rules\n"@);
    lemma_holds_on(t11, table, "1. Ground your response in the provided schema.\n"@);
    lemma_holds_on(t12, table, "2. Prefer DuckDB SQL that can run as-is.\n"@);
    lemma_holds_on(t13, table, "3. If a requested field does not exist, state that clearly and suggest an alternative.\n"@);
    lemma_holds_on(t14, table, "4. Keep responses concise and action-oriented.\n"@);
    lemma_holds_at_end(t7, joined_with(analysis_lines(schema), "\n"@));
    lemma_holds_on(t8, joined_with(analysis_lines(schema), "\n"@), "\n"@);
    lemma_holds_on(t9, joined_with(analysis_lines(schema), "\n"@), "\n"@);
    lemma_holds_on(t10, joined_with(analysis_lines(schema), "\n"@), "## Rules\n"@);
    lemma_holds_on(t11, joined_with(analysis_lines(schema), "\n"@), "1. Ground your response in the provided schema.\n"@);
    lemma_holds_on(t12, joined_with(analysis_lines(schema), "\n"@), "2. Prefer DuckDB SQL that can run as-is.\n"@);
    lemma_holds_on(t13, joined_with(analysis_lines(schema), "\n"@), "3. If a requested field does not exist, state that clearly and suggest an alternative.\n"@);
    lemma_holds_on(t14, joined_with(analysis_lines(schema), "\n"@), "4. Keep responses concise and action-oriented.\n"@);
    assert(holds_text("## Active table\n"@, "Active table"@)) by {
        reveal_strlit("## Active table\n");
        reveal_strlit("Active table");
        assert("## Active table\n"@.subrange(3int, 3int + "Active table"@.len()) =~= "Active table"@);
    }
    lemma_holds_behind(t2, "## Active table\n"@, "Active table"@);
    lemma_holds_on(t3, "Active table"@, table);
    lemma_holds_on(t4, "Active table"@, "\n"@);
    lemma_holds_on(t5, "Active table"@, "\n"@);
    lemma_holds_on(t6, "Active table"@, "## Current schema\n"@);
    lemma_holds_on(t7, "Active table"@, joined_with(analysis_lines(schema), "\n"@));
    lemma_holds_on(t8, "Active table"@, "\n"@);
    lemma_holds_on(t9, "Active table"@, "\n"@);
    lemma_holds_on(t10, "Active table"@, "## Rules\n"@);
    lemma_holds_on(t11, "Active table"@, "1. Ground your response in the provided schema.\n"@);
    lemma_holds_on(t12, "Active table"@, "2. Prefer DuckDB SQL that can run as-is.\n"@);
    lemma_holds_on(t13, "Active table"@, "3. If a requested field does not exist, state that clearly and suggest an alternative.\n"@);
    lemma_holds_on(t14, "Active table"@, "4. Keep responses concise and action-oriented.\n"@);
    assert(t15 == analysis_chat_text(table, schema));
    assert forall|k: int| 0 <= k < schema.len() implies holds_text(
        analysis_chat_text(table, schema),
        (#[trigger] schema[k]).name,
    ) && holds_text(analysis_chat_text(table, schema), schema[k].data_type) by {
        let lines = analysis_lines(schema);
        let joined = joined_with(lines, "\n"@);
        lemma_joined_holds(lines, "\n"@, k);
        lemma_analysis_line_holds(schema[k]);
        lemma_holds_within(joined, analysis_line(schema[k]), schema[k].name);
        lemma_holds_within(joined, analysis_line(schema[k]), schema[k].data_type);
        lemma_holds_within(analysis_chat_text(table, schema), joined, schema[k].name);
        lemma_holds_within(analysis_chat_text(table, schema), joined, schema[k].data_type);
    }
}

/// The prompt for an analysis statement holds the name of the table, the
/// name and the type of every column, the goal of the user without the
/// whitespace around it, and the demand for a statement that creates or
/// replaces the view `analysis_result`.
pub proof fn law_analysis_sql_prompt_holds_its_parts(table: Seq<char>, schema: Seq<ColumnModel>, goal: Seq<char>)
    ensures
        holds_text(analysis_sql_text(table, schema, goal), table),
        holds_text(analysis_sql_text(table, schema, goal), trimmed(goal)),
        holds_text(analysis_sql_text(table, schema, goal), joined_with(analysis_lines(schema), "\n"@)),
        holds_text(analysis_sql_text(table, schema, goal), "CREATE OR REPLACE VIEW"@),
        holds_text(analysis_sql_text(table, schema, goal), "analysis_result"@),
        forall|k: int|
            0 <= k < schema.len() ==> holds_text(analysis_sql_text(table, schema, goal), (#[trigger] schema[k]).name)
                && holds_text(analysis_sql_text(table, schema, goal), schema[k].data_type),
{
    let t0 = "You are Spatia's DuckDB analysis SQL assistant.\n"@;
    let t1 = t0 + "\n"@;
    let t2 = t1 + "## Input table\n"@;
    let t3 = t2 + table;
    let t4 = t3 + "\n"@;
    let t5 = t4 + "\n"@;
    let t6 = t5 + "## Current schema\n"@;
    let t7 = t6 + joined_with(analysis_lines(schema), "\n"@);
    let t8 = t7 + "\n"@;
    let t9 = t8 + "\n"@;
    let t10 = t9 + "## User goal\n"@;
    let t11 = t10 + trimmed(goal);
    let t12 = t11 + "\n"@;
    let t13 = t12 + "\n"@;
    let t14 = t13 + "## Requirements\n"@;
    let t15 = t14 + "1. Return exactly one DuckDB SQL statement.\n"@;
    let t16 = t15 + "2. The SQL must be `CREATE OR REPLACE VIEW analysis_result AS ...`.\n"@;
    let t17 = t16 + "3. Use only columns present in the schema.\n"@;
    let t18 = t17 + "4. Do not include markdown, comments, or explanation text.\n"@;
    lemma_holds_at_end(t2, table);
    lemma_holds_on(t3, table, "\n"@);
    lemma_holds_on(t4, table, "\n"@);
    lemma_holds_on(t5, table, "## Current schema\n"@);
    lemma_holds_on(t6, table, joined_with(analysis_lines(schema), "\n"@));
    lemma_holds_on(t7, table, "\n"@);
    lemma_holds_on(t8, table, "\n"@);
    lemma_holds_on(t9, table, "## User goal\n"@);
    lemma_holds_on(t10, table, trimmed(goal));
    lemma_holds_on(t11, table, "\n"@);
    lemma_holds_on(t12, table, "\n"@);
    lemma_holds_on(t13, table, "## Requirements\n"@);
    lemma_holds_on(t14, table, "1. Return exactly one DuckDB SQL statement.\n"@);
    lemma_holds_on(t15, table, "2. The SQL must be `CREATE OR REPLACE VIEW analysis_result AS ...`.\n"@);
    lemma_holds_on(t16, table, "3. Use only columns present in the schema.\n"@);
    lemma_holds_on(t17, table, "4. Do not include markdown, comments, or explanation text.\n"@);
    lemma_holds_at_end(t10, trimmed(goal));
    lemma_holds_on(t11, trimmed(goal), "\n"@);
    lemma_holds_on(t12, trimmed(goal), "\n"@);
    lemma_holds_on(t13, trimmed(goal), "## Requirements\n"@);
    lemma_holds_on(t14, trimmed(goal), "1. Return exactly one DuckDB SQL statement.\n"@);
    lemma_holds_on(t15, trimmed(goal), "2. The SQL must be `CREATE OR REPLACE VIEW analysis_result AS ...`.\n"@);
    lemma_holds_on(t16, trimmed(goal), "3. Use only columns present in the schema.\n"@);
    lemma_holds_on(t17, trimmed(goal), "4. Do not include markdown, comments, or explanation text.\n"@);
    lemma_holds_at_end(t6, joined_with(analysis_lines(schema), "\n"@));
    lemma_holds_on(t7, joined_with(analysis_lines(schema), "\n"@), "\n"@);
    lemma_holds_on(t8, joined_with(analysis_lines(schema), "\n"@), "\n"@);
    lemma_holds_on(t9, joined_with(analysis_lines(schema), "\n"@), "## User goal\n"@);
    lemma_holds_on(t10, joined_with(analysis_lines(schema), "\n"@), trimmed(goal));
    lemma_holds_on(t11, joined_with(analysis_lines(schema), "\n"@), "\n"@);
    lemma_holds_on(t12, joined_with(analysis_lines(schema), "\n"@), "\n"@);
    lemma_holds_on(t13, joined_with(analysis_lines(schema), "\n"@), "## Requirements\n"@);
    lemma_holds_on(t14, joined_with(analysis_lines(schema), "\n"@), "1. Return exactly one DuckDB SQL statement.\n"@);
    lemma_holds_on(t15, joined_with(analysis_lines(schema), "\n"@), "2. The SQL must be `CREATE OR REPLACE VIEW analysis_result AS ...`.\n"@);
    lemma_holds_on(t16, joined_with(analysis_lines(schema), "\n"@), "3. Use only columns present in the schema.\n"@);
    lemma_holds_on(t17, joined_with(analysis_lines(schema), "\n"@), "4. Do not include markdown, comments, or explanation text.\n"@);
    assert(holds_text("2. The SQL must be `CREATE OR REPLACE VIEW analysis_result AS ...`.\n"@, "CREATE OR REPLACE VIEW"@)) by {
        reveal_strlit("2. The SQL must be `CREATE OR REPLACE VIEW analysis_result AS ...`.\n");
        reveal_strlit("CREATE OR REPLACE VIEW");
        assert("2. The SQL must be `CREATE OR REPLACE VIEW analysis_result AS ...`.\n"@.subrange(20int, 20int + "CREATE OR REPLACE VIEW"@.len()) =~= "CREATE OR REPLACE VIEW"@);
    }
    lemma_holds_behind(t15, "2. The SQL must be `CREATE OR REPLACE VIEW analysis_result AS ...`.\n"@, "CREATE OR REPLACE VIEW"@);
    lemma_holds_on(t16, "CREATE OR REPLACE VIEW"@, "3. Use only columns present in the schema.\n"@);
    lemma_holds_on(t17, "CREATE OR REPLACE VIEW"@, "4. Do not include markdown, comments, or explanation text.\n"@);
    assert(holds_text("2. The SQL must be `CREATE OR REPLACE VIEW analysis_result AS ...`.\n"@, "analysis_result"@)) by {
        reveal_strlit("2. The SQL must be `CREATE OR REPLACE VIEW analysis_result AS ...`.\n");
        reveal_strlit("analysis_result");
        assert("2. The SQL must be `CREATE OR REPLACE VIEW analysis_result AS ...`.\n"@.subrange(43int, 43int + "analysis_result"@.len()) =~= "analysis_result"@);
    }
    lemma_holds_behind(t15, "2. The SQL must be `CREATE OR REPLACE VIEW analysis_result AS ...`.\n"@, "analysis_result"@);
    lemma_holds_on(t16, "analysis_result"@, "3. Use only columns present in the schema.\n"@);
    lemma_holds_on(t17, "analysis_result"@, "4. Do not include markdown, comments, or explanation text.\n"@);
    assert(t18 == analysis_sql_text(table, schema, goal));
    assert forall|k: int| 0 <= k < schema.len() implies holds_text(
        analysis_sql_text(table, schema, goal),
        (#[trigger] schema[k]).name,
    ) && holds_text(analysis_sql_text(table, schema, goal), schema[k].data_type) by {
        let lines = analysis_lines(schema);
        let joined = joined_with(lines, "\n"@);
        lemma_joined_holds(lines, "\n"@, k);
        lemma_analysis_line_holds(schema[k]);
        lemma_holds_within(joined, analysis_line(schema[k]), schema[k].name);
        lemma_holds_within(joined, analysis_line(schema[k]), schema[k].data_type);
        lemma_holds_within(analysis_sql_text(table, schema, goal), joined, schema[k].name);
        lemma_holds_within(analysis_sql_text(table, schema, goal), joined, schema[k].data_type);
    }
}

/// The prompt for a visualization command holds the name of the table, the
/// goal of the user without the whitespace around it, the shape of the
/// answer and the visualizations to choose from.
pub proof fn law_visualization_prompt_holds_its_parts(table: Seq<char>, goal: Seq<char>)
    ensures
        holds_text(visualization_text(table, goal), table),
        holds_text(visualization_text(table, goal), trimmed(goal)),
        holds_text(visualization_text(table, goal), "{\"visualization\":\"scatter\"}"@),
        holds_text(visualization_text(table, goal), "scatter, heatmap, hexbin"@),
{
    let t0 = "You are Spatia's visualization planner.\n"@;
    let t1 = t0 + "\n"@;
    let t2 = t1 + "## Input context\n"@;
    let t3 = t2 + "- table: "@;
    let t4 = t3 + table;
    let t5 = t4 + "\n"@;
    let t6 = t5 + "- goal: "@;
    let t7 = t6 + trimmed(goal);
    let t8 = t7 + "\n"@;
    let t9 = t8 + "\n"@;
    let t10 = t9 + "Return ONLY compact JSON in this exact shape:\n"@;
    let t11 = t10 + "{\"visualization\":\"scatter\"}\n"@;
    let t12 = t11 + "\n"@;
    let t13 = t12 + "Allowed visualization values: scatter, heatmap, hexbin.\n"@;
    let t14 = t13 + "No markdown. No explanation.\n"@;
    lemma_holds_at_end(t3, table);
    lemma_holds_on(t4, table, "\n"@);
    lemma_holds_on(t5, table, "- goal: "@);
    lemma_holds_on(t6, table, trimmed(goal));
    lemma_holds_on(t7, table, "\n"@);
    lemma_holds_on(t8, table, "\n"@);
    lemma_holds_on(t9, table, "Return ONLY compact JSON in this exact shape:\n"@);
    lemma_holds_on(t10, table, "{\"visualization\":\"scatter\"}\n"@);
    lemma_holds_on(t11, table, "\n"@);
    lemma_holds_on(t12, table, "Allowed visualization values: scatter, heatmap, hexbin.\n"@);
    lemma_holds_on(t13, table, "No markdown. No explanation.\n"@);
    lemma_holds_at_end(t6, trimmed(goal));
    lemma_holds_on(t7, trimmed(goal), "\n"@);
    lemma_holds_on(t8, trimmed(goal), "\n"@);
    lemma_holds_on(t9, trimmed(goal), "Return ONLY compact JSON in this exact shape:\n"@);
    lemma_holds_on(t10, trimmed(goal), "{\"visualization\":\"scatter\"}\n"@);
    lemma_holds_on(t11, trimmed(goal), "\n"@);
    lemma_holds_on(t12, trimmed(goal), "Allowed visualization values: scatter, heatmap, hexbin.\n"@);
    lemma_holds_on(t13, trimmed(goal), "No markdown. No explanation.\n"@);
    assert(holds_text("{\"visualization\":\"scatter\"}\n"@, "{\"visualization\":\"scatter\"}"@)) by {
        reveal_strlit("{\"visualization\":\"scatter\"}\n");
        reveal_strlit("{\"visualization\":\"scatter\"}");
        assert("{\"visualization\":\"scatter\"}\n"@.subrange(0int, 0int + "{\"visualization\":\"scatter\"}"@.len()) =~= "{\"visualization\":\"scatter\"}"@);
    }
    lemma_holds_behind(t10, "{\"visualization\":\"scatter\"}\n"@, "{\"visualization\":\"scatter\"}"@);
    lemma_holds_on(t11, "{\"visualization\":\"scatter\"}"@, "\n"@);
    lemma_holds_on(t12, "{\"visualization\":\"scatter\"}"@, "Allowed visualization values: scatter, heatmap, hexbin.\n"@);
    lemma_holds_on(t13, "{\"visualization\":\"scatter\"}"@, "No markdown. No explanation.\n"@);
    assert(holds_text("Allowed visualization values: scatter, heatmap, hexbin.\n"@, "scatter, heatmap, hexbin"@)) by {
        reveal_strlit("Allowed visualization values: scatter, heatmap, hexbin.\n");
        reveal_strlit("scatter, heatmap, hexbin");
        assert("Allowed visualization values: scatter, heatmap, hexbin.\n"@.subrange(30int, 30int + "scatter, heatmap, hexbin"@.len()) =~= "scatter, heatmap, hexbin"@);
    }
    lemma_holds_behind(t12, "Allowed visualization values: scatter, heatmap, hexbin.\n"@, "scatter, heatmap, hexbin"@);
    lemma_holds_on(t13, "scatter, heatmap, hexbin"@, "No markdown. No explanation.\n"@);
    assert(t14 == visualization_text(table, goal));
}

} // verus!
