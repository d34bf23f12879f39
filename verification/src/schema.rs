//! The columns of a table, as the database reports them.

use crate::geocode_result::opt_text;
use vstd::prelude::*;

verus! {

/// The table that a plain ingestion fills.
pub const RAW_STAGING_TABLE: &'static str = "raw_staging";

/// The mathematical content of a [`TableColumn`].
pub struct ColumnModel {
    pub cid: i64,
    pub name: Seq<char>,
    pub data_type: Seq<char>,
    pub notnull: bool,
    pub default_value: Option<Seq<char>>,
    pub primary_key: bool,
}

/// One column of a table.
#[derive(Debug, Clone, PartialEq, Eq)]
pub struct TableColumn {
    pub cid: i64,
    pub name: String,
    pub data_type: String,
    pub notnull: bool,
    pub default_value: Option<String>,
    pub primary_key: bool,
}

impl View for TableColumn {
    type V = ColumnModel;

    open spec fn view(&self) -> ColumnModel {
        ColumnModel {
            cid: self.cid,
            name: self.name@,
            data_type: self.data_type@,
            notnull: self.notnull,
            default_value: opt_text(self.default_value),
            primary_key: self.primary_key,
        }
    }
}

impl DeepView for TableColumn {
    type V = ColumnModel;

    open spec fn deep_view(&self) -> ColumnModel {
        self@
    }
}

/// The text of the statement that lists the columns of `table`.
pub open spec fn table_info_text(table: Seq<char>) -> Seq<char> {
    "PRAGMA table_info('"@ + table + "')"@
}

/// The statement that lists the columns of `table_name`.
pub fn table_info_sql(table_name: &str) -> (sql: String)
    ensures
        sql@ == table_info_text(table_name@),
{
    let mut sql = "PRAGMA table_info('".to_owned();
    sql.append(table_name);
    sql.append("')");
    sql
}

} // verus!
