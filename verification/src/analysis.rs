//! Analysis statements: which statement may be run as an analysis, and
//! where the result is read from.

use crate::text::{eq_ignore_ascii_case, has_prefix, same_ignoring_ascii_case, trim, trimmed, uppercase_of};
use vstd::prelude::*;

verus! {

/// The statement that lists the columns of the analysis result.
pub const ANALYSIS_COLUMNS_SQL: &'static str = "PRAGMA table_info('analysis_result')";

/// The statement that reads the analysis result.
pub const ANALYSIS_ROWS_SQL: &'static str = "SELECT * FROM analysis_result LIMIT 1000";

/// Why a statement is not run as an analysis.
#[derive(Debug, Clone, Copy, PartialEq, Eq, Structural)]
pub enum AnalysisError {
    /// The statement does not create the view `analysis_result`.
    NotAViewStatement,
}

impl AnalysisError {
    /// The text of the error.
    pub open spec fn text(self) -> Seq<char> {
        "analysis SQL must start with CREATE [OR REPLACE] VIEW analysis_result AS"@
    }

    /// The text of the error.
    pub fn message(&self) -> (r: String)
        ensures
            r@ == self.text(),
    {
        "analysis SQL must start with CREATE [OR REPLACE] VIEW analysis_result AS".to_owned()
    }
}

/// Whether a statement, trimmed and in upper case, creates the view
/// `analysis_result`, replacing it or not.
pub open spec fn creates_analysis_view(normalized: Seq<char>) -> bool {
    "CREATE OR REPLACE VIEW ANALYSIS_RESULT AS"@.is_prefix_of(normalized)
        || "CREATE VIEW ANALYSIS_RESULT AS"@.is_prefix_of(normalized)
}

/// Whether a statement, trimmed and in upper case, creates the view
/// `analysis_result`.
pub fn is_analysis_view_statement(normalized: &str) -> (r: bool)
    ensures
        r == creates_analysis_view(normalized@),
{
    has_prefix(normalized, "CREATE OR REPLACE VIEW ANALYSIS_RESULT AS") || has_prefix(
        normalized,
        "CREATE VIEW ANALYSIS_RESULT AS",
    )
}

/// Accepts a statement that creates the view `analysis_result`, in any
/// letter case and with whitespace around it, and refuses every other
/// statement.
pub fn validate_analysis_sql(sql: &str) -> (r: Result<(), AnalysisError>)
    ensures
        r is Ok <==> creates_analysis_view(uppercase_of(trimmed(sql@))),
{
    let normalized = trim(sql).as_str().to_uppercase();
    if is_analysis_view_statement(normalized.as_str()) {
        Ok(())
    } else {
        Err(AnalysisError::NotAViewStatement)
    }
}

/// Whether a column holds a latitude, going by its name.
pub fn is_latitude_name(name: &str) -> (r: bool)
    ensures
        r == (same_ignoring_ascii_case(name@, "lat"@) || same_ignoring_ascii_case(
            name@,
            "latitude"@,
        )),
{
    eq_ignore_ascii_case(name, "lat") || eq_ignore_ascii_case(name, "latitude")
}

/// Whether a column holds a longitude, going by its name.
pub fn is_longitude_name(name: &str) -> (r: bool)
    ensures
        r == (same_ignoring_ascii_case(name@, "lon"@) || same_ignoring_ascii_case(name@, "lng"@)
            || same_ignoring_ascii_case(name@, "longitude"@)),
{
    eq_ignore_ascii_case(name, "lon") || eq_ignore_ascii_case(name, "lng") || eq_ignore_ascii_case(
        name,
        "longitude",
    )
}

} // verus!
