//! Loading a CSV file into a table: the table that is filled and the
//! statement that fills it.

use crate::geocode_result::opt_text;
use crate::identifiers::{valid_table_name, validate_table_name, IdentifierError};
use crate::schema::RAW_STAGING_TABLE;
use crate::text::{replace_char, replaced};
use vstd::prelude::*;

verus! {

/// The statements that make the spatial functions available, in the order
/// in which they are run.
pub const LOAD_SPATIAL_SQL: [&'static str; 2] = ["INSTALL spatial", "LOAD spatial"];

/// The text of the statement that loads a CSV file. A single quote in the
/// path is doubled. With `replace` an existing table gives way.
pub open spec fn load_csv_text(csv_path: Seq<char>, table: Seq<char>, replace: bool) -> Seq<char> {
    if replace {
        "CREATE OR REPLACE TABLE "@ + table + " AS SELECT * FROM read_csv_auto('"@ + replaced(
            csv_path,
            '\'',
            "''"@,
        ) + "')"@
    } else {
        "CREATE TABLE "@ + table + " AS SELECT * FROM read_csv_auto('"@ + replaced(
            csv_path,
            '\'',
            "''"@,
        ) + "')"@
    }
}

/// The statement that loads the file at `csv_path` into `table_name`.
pub fn load_csv_sql(csv_path: &str, table_name: &str, replace: bool) -> (r: String)
    ensures
        r@ == load_csv_text(csv_path@, table_name@, replace),
{
    let escaped = replace_char(csv_path, '\'', "''");
    let mut r = if replace {
        "CREATE OR REPLACE TABLE ".to_owned()
    } else {
        "CREATE TABLE ".to_owned()
    };
    r.append(table_name);
    r.append(" AS SELECT * FROM read_csv_auto('");
    r.append(escaped.as_str());
    r.append("')");
    r
}

/// The mathematical content of an [`IngestPlan`].
pub struct IngestPlanModel {
    pub table: Seq<char>,
    pub sql: Seq<char>,
}

/// What an ingestion does.
#[derive(Debug, Clone, PartialEq, Eq)]
pub struct IngestPlan {
    /// The table that is filled.
    pub table: String,
    /// The statement that fills it.
    pub sql: String,
}

impl View for IngestPlan {
    type V = IngestPlanModel;

    open spec fn view(&self) -> IngestPlanModel {
        IngestPlanModel { table: self.table@, sql: self.sql@ }
    }
}

/// What an ingestion does. Without a table name the staging table is
/// filled, and replaced where it exists. A table that is named must have a
/// valid name and must not exist yet.
pub open spec fn ingest_plan_of(csv_path: Seq<char>, table_name: Option<Seq<char>>) -> Result<
    IngestPlanModel,
    IdentifierError,
> {
    match table_name {
        None => Ok(
            IngestPlanModel {
                table: RAW_STAGING_TABLE@,
                sql: load_csv_text(csv_path, RAW_STAGING_TABLE@, true),
            },
        ),
        Some(table) => if table.len() == 0 {
            Err(IdentifierError::Empty)
        } else if !valid_table_name(table) {
            Err(IdentifierError::Invalid)
        } else {
            Ok(IngestPlanModel { table, sql: load_csv_text(csv_path, table, false) })
        },
    }
}

/// Plans an ingestion.
pub fn plan_ingest(csv_path: &str, table_name: &Option<String>) -> (r: Result<
    IngestPlan,
    IdentifierError,
>)
    ensures
        match r {
            Ok(plan) => ingest_plan_of(csv_path@, opt_text(*table_name)) == Ok::<
                IngestPlanModel,
                IdentifierError,
            >(plan@),
            Err(e) => ingest_plan_of(csv_path@, opt_text(*table_name)) == Err::<
                IngestPlanModel,
                IdentifierError,
            >(e),
        },
{
    match table_name {
        None => Ok(
            IngestPlan {
                table: RAW_STAGING_TABLE.to_owned(),
                sql: load_csv_sql(csv_path, RAW_STAGING_TABLE, true),
            },
        ),
        Some(table) => {
            match validate_table_name(table.as_str()) {
                Ok(()) => Ok(
                    IngestPlan {
                        table: table.clone(),
                        sql: load_csv_sql(csv_path, table.as_str(), false),
                    },
                ),
                Err(e) => Err(e),
            }
        },
    }
}

} // verus!
