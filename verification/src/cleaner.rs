//! Cleaning a table with statements proposed by a language model: which
//! lines of an answer are statements, and which statements may be run.

use crate::schema::TableColumn;
use crate::text::{
    decimal, has_prefix, join, joined_with, lines_of, push_decimal, split_lines, trim, trim_start,
    trim_start_of, trimmed, uppercase_of,
};
use vstd::prelude::*;

verus! {

/// The number of sample rows shown to the model.
pub const SAMPLE_ROW_COUNT: usize = 20;

/// What a cleaning run reports.
#[derive(Debug, Clone)]
pub struct CleanResult {
    /// The table that was cleaned.
    pub table: String,
    /// The statements that were applied, in order.
    pub statements_applied: Vec<String>,
    /// The columns of the table after the run.
    pub schema_after: Vec<TableColumn>,
}

/// Why a proposed statement is not run.
#[derive(Debug, Clone, PartialEq, Eq)]
pub enum CleanError {
    /// The statement is no `UPDATE`.
    UnsafeStatement { statement: String },
}

impl CleanError {
    /// The text of the error.
    pub open spec fn text(self) -> Seq<char> {
        match self {
            CleanError::UnsafeStatement { statement } =>
                "unsafe statement rejected (only UPDATE is allowed): "@ + statement@,
        }
    }

    /// The text of the error.
    pub fn message(&self) -> (r: String)
        ensures
            r@ == self.text(),
    {
        match self {
            CleanError::UnsafeStatement { statement } => {
                let mut r = "unsafe statement rejected (only UPDATE is allowed): ".to_owned();
                r.append(statement.as_str());
                r
            },
        }
    }
}

/// Whether a trimmed line is a statement: it is not empty, opens no code
/// fence and is no comment.
pub open spec fn is_statement_line(line: Seq<char>) -> bool {
    line.len() > 0 && !"```"@.is_prefix_of(line) && !"--"@.is_prefix_of(line)
}

/// The statements among `lines`: each line trimmed, and kept where it is a
/// statement.
pub open spec fn statements_in(lines: Seq<Seq<char>>) -> Seq<Seq<char>>
    decreases lines.len(),
{
    if lines.len() == 0 {
        Seq::empty()
    } else {
        let rest = statements_in(lines.drop_last());
        let line = trimmed(lines.last());
        if is_statement_line(line) {
            rest.push(line)
        } else {
            rest
        }
    }
}

/// The statements of an answer, one for each line that is neither blank, a
/// code fence nor a comment.
pub fn extract_sql_statements(ai_text: &str) -> (r: Vec<String>)
    ensures
        r.deep_view() == statements_in(lines_of(ai_text@)),
{
    let lines = split_lines(ai_text);
    let mut r: Vec<String> = Vec::new();
    let mut i: usize = 0;
    assert(lines.deep_view().take(0) == Seq::<Seq<char>>::empty());
    while i < lines.len()
        invariant
            i <= lines.len(),
            r.deep_view() == statements_in(lines.deep_view().take(i as int)),
        decreases lines.len() - i,
    {
        let ghost before = r.deep_view();
        proof {
            let next = lines.deep_view().take(i + 1);
            assert(next.drop_last() == lines.deep_view().take(i as int));
            assert(next.last() == lines[i as int]@);
        }
        let line = trim(lines[i].as_str());
        if !line.as_str().is_empty() && !has_prefix(line.as_str(), "```") && !has_prefix(
            line.as_str(),
            "--",
        ) {
            r.push(line);
            assert(r.deep_view() == before.push(line@));
        }
        i += 1;
    }
    assert(lines.deep_view().take(lines.len() as int) == lines.deep_view());
    r
}

/// Whether a statement in upper case is an `UPDATE`.
pub fn is_update_statement(upper: &str) -> (r: bool)
    ensures
        r == "UPDATE "@.is_prefix_of(upper@),
{
    has_prefix(upper, "UPDATE ")
}

/// Whether a statement may be run: without its leading whitespace and in
/// upper case, it begins with `UPDATE` and a space.
pub open spec fn is_safe_statement(stmt: Seq<char>) -> bool {
    "UPDATE "@.is_prefix_of(uppercase_of(trim_start_of(stmt)))
}

/// Accepts an `UPDATE` statement and refuses every other statement, quoting
/// it.
pub fn validate_statement(stmt: &str) -> (r: Result<(), CleanError>)
    ensures
        r is Ok <==> is_safe_statement(stmt@),
        r matches Err(CleanError::UnsafeStatement { statement }) ==> statement@ == stmt@,
{
    let upper = trim_start(stmt).as_str().to_uppercase();
    if is_update_statement(upper.as_str()) {
        Ok(())
    } else {
        Err(CleanError::UnsafeStatement { statement: stmt.to_owned() })
    }
}

/// What is to be run of an answer, and what stops the run.
#[derive(Debug, Clone, PartialEq, Eq)]
pub struct CleaningPlan {
    /// The statements to run, in order.
    pub statements: Vec<String>,
    /// The statement that is refused after them, if one is.
    pub rejected: Option<String>,
}

/// The position of the first statement that may not be run.
pub open spec fn first_unsafe(statements: Seq<Seq<char>>) -> int
    decreases statements.len(),
{
    if statements.len() == 0 {
        0
    } else if !is_safe_statement(statements[0]) {
        0
    } else {
        1 + first_unsafe(statements.drop_first())
    }
}

/// Plans a cleaning run: the statements of the answer are run in order up
/// to the first one that is no `UPDATE`, which is refused.
pub fn plan_cleaning(ai_text: &str) -> (plan: CleaningPlan)
    ensures
        ({
            let all = statements_in(lines_of(ai_text@));
            let stop = first_unsafe(all);
            &&& 0 <= stop <= all.len()
            &&& plan.statements.deep_view() == all.take(stop)
            &&& crate::geocode_result::opt_text(plan.rejected) == (if stop < all.len() {
                Some(all[stop])
            } else {
                None
            })
        }),
{
    let all = extract_sql_statements(ai_text);
    let mut statements: Vec<String> = Vec::new();
    let mut i: usize = 0;
    assert(all.deep_view().skip(0) == all.deep_view());
    while i < all.len()
        invariant
            i <= all.len(),
            all.deep_view() == statements_in(lines_of(ai_text@)),
            statements.deep_view() == all.deep_view().take(i as int),
            first_unsafe(all.deep_view()) == i + first_unsafe(all.deep_view().skip(i as int)),
        decreases all.len() - i,
    {
        let ghost before = statements.deep_view();
        let ghost rest = all.deep_view().skip(i as int);
        assert(rest[0] == all[i as int]@);
        assert(rest.drop_first() == all.deep_view().skip(i + 1));
        match validate_statement(all[i].as_str()) {
            Ok(()) => {
                let s = all[i].clone();
                statements.push(s);
                assert(statements.deep_view() == before.push(s@));
                assert(all.deep_view()[i as int] == s@);
                assert(all.deep_view().take(i + 1) =~= before.push(s@));
            },
            Err(_) => {
                return CleaningPlan { statements, rejected: Some(all[i].clone()) };
            },
        }
        i += 1;
    }
    assert(all.deep_view().take(all.len() as int) == all.deep_view());
    CleaningPlan { statements, rejected: None }
}

/// The text of the statement that samples a table.
pub open spec fn sample_rows_text(table: Seq<char>, n: usize) -> Seq<char> {
    "SELECT * FROM \""@ + table + "\" USING SAMPLE "@ + decimal(n as nat) + " ROWS"@
}

/// The statement that reads `n` rows of `table_name` at random.
pub fn sample_rows_sql(table_name: &str, n: usize) -> (r: String)
    ensures
        r@ == sample_rows_text(table_name@, n),
{
    let mut r = "SELECT * FROM \"".to_owned();
    r.append(table_name);
    r.append("\" USING SAMPLE ");
    push_decimal(&mut r, n as u64);
    r.append(" ROWS");
    r
}

/// The sample rows as they are shown to the model: the cells of a row with
/// commas between them, the rows with line feeds between them.
pub open spec fn sample_text(rows: Seq<Seq<Seq<char>>>) -> Seq<char> {
    joined_with(Seq::new(rows.len(), |i: int| joined_with(rows[i], ","@)), "\n"@)
}

/// Writes the sample rows as they are shown to the model.
pub fn format_sample_rows(rows: &[Vec<String>]) -> (r: String)
    ensures
        r@ == sample_text(rows.deep_view()),
{
    let mut lines: Vec<String> = Vec::new();
    let mut i: usize = 0;
    while i < rows.len()
        invariant
            i <= rows.len(),
            lines.len() == i,
            forall|k: int|
                0 <= k < i ==> lines.deep_view()[k] == joined_with(rows.deep_view()[k], ","@),
        decreases rows.len() - i,
    {
        let ghost before = lines.deep_view();
        assert(rows.deep_view()[i as int] == rows[i as int].deep_view());
        let line = join(rows[i].as_slice(), ",");
        lines.push(line);
        assert(lines.deep_view() =~= before.push(line@));
        i += 1;
    }
    assert(lines.deep_view() =~= Seq::new(
        rows.len() as nat,
        |i: int| joined_with(rows.deep_view()[i], ","@),
    ));
    join(lines.as_slice(), "\n")
}

/// The statements of an answer are its statement lines and nothing else:
/// each statement is a line of the answer without the whitespace around it,
/// is not empty, opens no code fence and is no comment; every line that is
/// a statement once it is trimmed is among them; and there are no more
/// statements than lines.
pub proof fn law_statements_are_the_statement_lines(lines: Seq<Seq<char>>)
    ensures
        statements_in(lines).len() <= lines.len(),
        forall|i: int|
            0 <= i < statements_in(lines).len() ==> is_statement_line(
                #[trigger] statements_in(lines)[i],
            ) && exists|k: int|
                0 <= k < lines.len() && trimmed(#[trigger] lines[k]) == statements_in(lines)[i],
        forall|k: int|
            0 <= k < lines.len() && is_statement_line(trimmed(#[trigger] lines[k]))
                ==> statements_in(lines).contains(trimmed(lines[k])),
    decreases lines.len(),
{
    if lines.len() > 0 {
        let rest = lines.drop_last();
        let found = statements_in(rest);
        let all = statements_in(lines);
        let n = lines.len() - 1;
        law_statements_are_the_statement_lines(rest);
        assert(lines.last() == lines[n]);
        assert forall|i: int| 0 <= i < all.len() implies is_statement_line(#[trigger] all[i])
            && exists|k: int| 0 <= k < lines.len() && trimmed(#[trigger] lines[k]) == all[i] by {
            if i < found.len() {
                assert(all[i] == found[i]);
                let k = choose|k: int|
                    0 <= k < rest.len() && trimmed(#[trigger] rest[k]) == found[i];
                assert(rest[k] == lines[k]);
                assert(trimmed(lines[k]) == all[i]);
            } else {
                assert(trimmed(lines[n]) == all[i]);
            }
        }
        assert forall|k: int|
            0 <= k < lines.len() && is_statement_line(
                trimmed(#[trigger] lines[k]),
            ) implies all.contains(trimmed(lines[k])) by {
            if k < n {
                assert(rest[k] == lines[k]);
                assert(found.contains(trimmed(rest[k])));
                let j = choose|j: int| 0 <= j < found.len() && found[j] == trimmed(rest[k]);
                assert(all[j] == trimmed(lines[k]));
            } else {
                assert(all[found.len() as int] == trimmed(lines[k]));
            }
        }
    }
}

} // verus!
