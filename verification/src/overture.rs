//! Overture map data in local tables: where a release is read from, how
//! the tables are named, and the statements that extract and search them.

use crate::geocode_result::{opt_text, Coordinate};
use crate::identifiers::{valid_table_name, validate_table_name, IdentifierError};
use crate::text::{
    blank, decimal, is_blank, lowercase_of, push_decimal, replace_char, replaced, str_eq,
};
use vstd::prelude::*;

verus! {

/// The release that is read unless another is configured.
pub const OVERTURE_RELEASE: &'static str = "2026-02-18.0";

/// The most rows that a search returns.
pub const MAX_SEARCH_LIMIT: usize = 1000;

/// The statements that make the spatial functions and remote files
/// available, in the order in which they are run.
pub const LOAD_EXTENSIONS_SQL: [&'static str; 4] = [
    "INSTALL spatial",
    "LOAD spatial",
    "INSTALL httpfs",
    "LOAD httpfs",
];

/// What an extraction reports.
#[derive(Debug, Clone, PartialEq, Eq)]
pub struct OvertureExtractResult {
    pub status: &'static str,
    pub table: String,
    pub release: String,
    pub row_count: i64,
}

/// One row of a search.
#[derive(Debug, Clone, PartialEq, Eq)]
pub struct OvertureSearchResult {
    pub id: Option<String>,
    pub label: String,
}

/// One row of a search for an address, with its place where the table
/// holds one.
#[derive(Debug, Clone, PartialEq, Eq)]
pub struct OvertureGeocodeResult {
    pub id: Option<String>,
    pub label: String,
    pub lat: Option<Coordinate>,
    pub lon: Option<Coordinate>,
}

/// Why a request on Overture data is refused.
#[derive(Debug, Clone, Copy, PartialEq, Eq, Structural)]
pub enum OvertureError {
    /// The table name is refused.
    Table(IdentifierError),
    /// The query of a search is blank.
    EmptySearchQuery,
    /// The query of a search for an address is blank.
    EmptyGeocodeQuery,
}

impl OvertureError {
    /// The text of the error.
    pub open spec fn text(self) -> Seq<char> {
        match self {
            OvertureError::Table(e) => e.text(),
            OvertureError::EmptySearchQuery => "search query cannot be empty"@,
            OvertureError::EmptyGeocodeQuery => "geocode query cannot be empty"@,
        }
    }

    /// The text of the error.
    pub fn message(&self) -> (r: String)
        ensures
            r@ == self.text(),
    {
        match self {
            OvertureError::Table(e) => e.message(),
            OvertureError::EmptySearchQuery => "search query cannot be empty".to_owned(),
            OvertureError::EmptyGeocodeQuery => "geocode query cannot be empty".to_owned(),
        }
    }
}

/// Where the files of a theme are read from. The places theme is read
/// whole; any other theme is read whole where the type is blank or `*`, and
/// by its type partition otherwise.
pub open spec fn source_path_text(release: Seq<char>, theme: Seq<char>, item_type: Seq<char>) -> Seq<
    char,
> {
    if theme == "places"@ {
            "s3://overturemaps-us-west-2/release/"@
            + release
            + "/theme=places/*/*"@
    } else if is_blank(item_type) || item_type == "*"@ {
            "s3://overturemaps-us-west-2/release/"@
            + release
            + "/theme="@
            + theme
            + "/*"@
    } else {
            "s3://overturemaps-us-west-2/release/"@
            + release
            + "/theme="@
            + theme
            + "/type="@
            + item_type
            + "/*"@
    }
}

/// Where the files of a theme are read from.
pub fn overture_source_path(release: &str, theme: &str, item_type: &str) -> (r: String)
    ensures
        r@ == source_path_text(release@, theme@, item_type@),
{
    if str_eq(theme, "places") {
        let mut r = "s3://overturemaps-us-west-2/release/".to_owned();
        r.append(release);
        r.append("/theme=places/*/*");
        r
    } else if blank(item_type) || str_eq(item_type, "*") {
        let mut r = "s3://overturemaps-us-west-2/release/".to_owned();
        r.append(release);
        r.append("/theme=");
        r.append(theme);
        r.append("/*");
        r
    } else {
        let mut r = "s3://overturemaps-us-west-2/release/".to_owned();
        r.append(release);
        r.append("/theme=");
        r.append(theme);
        r.append("/type=");
        r.append(item_type);
        r.append("/*");
        r
    }
}

/// The table that an extraction fills unless one is named: `overture_`,
/// the theme and the type, with `_` for each `-`.
pub open spec fn default_table_text(theme: Seq<char>, item_type: Seq<char>) -> Seq<char> {
    "overture_"@ + replaced(theme, '-', "_"@) + "_"@ + replaced(item_type, '-', "_"@)
}

/// The table that an extraction fills unless one is named.
pub fn default_table_name(theme: &str, item_type: &str) -> (r: String)
    ensures
        r@ == default_table_text(theme@, item_type@),
{
    let mut r = "overture_".to_owned();
    r.append(replace_char(theme, '-', "_").as_str());
    r.append("_");
    r.append(replace_char(item_type, '-', "_").as_str());
    r
}

/// The table that holds the labels of `base_table`.
pub open spec fn lookup_table_text(base_table: Seq<char>) -> Seq<char> {
    base_table + "_lookup"@
}

/// The table that holds the labels of `base_table`.
pub fn lookup_table_name(base_table: &str) -> (r: String)
    ensures
        r@ == lookup_table_text(base_table@),
{
    let mut r = base_table.to_owned();
    r.append("_lookup");
    r
}

/// The lookup table of a table with a valid name has a valid name.
pub proof fn law_lookup_table_name_is_valid(base_table: Seq<char>)
    requires
        valid_table_name(base_table),
    ensures
        valid_table_name(lookup_table_text(base_table)),
{
    reveal_strlit("_lookup");
    let name = lookup_table_text(base_table);
    assert(name[0] == base_table[0]);
    assert forall|i: int| 1 <= i < name.len() implies crate::identifiers::ident_continue(
        #[trigger] name[i],
    ) by {
        if i < base_table.len() {
            assert(name[i] == base_table[i]);
        } else {
            assert(name[i] == "_lookup"@[i - base_table.len()]);
        }
    }
}

/// The limit in force: at least 1 and at most the maximum.
pub open spec fn limit_in_force(limit: usize) -> usize {
    if limit < 1 {
        1
    } else if limit > MAX_SEARCH_LIMIT {
        MAX_SEARCH_LIMIT
    } else {
        limit
    }
}

/// The limit in force: at least 1 and at most the maximum.
pub fn safe_limit(limit: usize) -> (r: usize)
    ensures
        r == limit_in_force(limit),
        1 <= r <= MAX_SEARCH_LIMIT,
{
    if limit < 1 {
        1
    } else if limit > MAX_SEARCH_LIMIT {
        MAX_SEARCH_LIMIT
    } else {
        limit
    }
}

/// A query as it is written into a statement: each single quote doubled,
/// and the whole in lower case.
pub open spec fn normalized_query(query: Seq<char>) -> Seq<char> {
    lowercase_of(replaced(query, '\'', "''"@))
}

/// A query as it is written into a statement.
pub fn normalize_query(query: &str) -> (r: String)
    ensures
        r@ == normalized_query(query@),
{
    replace_char(query, '\'', "''").as_str().to_lowercase()
}

/// The text of the statement that searches a lookup table.
pub open spec fn search_sql_text(table: Seq<char>, query: Seq<char>, limit: usize) -> Seq<char> {
        "SELECT source_id AS id, label FROM "@
        + table
        + " WHERE label_norm LIKE '%"@
        + query
        + "%' ORDER BY CASE WHEN label_norm = '"@
        + query
        + "' THEN 0 WHEN label_norm LIKE '"@
        + query
        + "%' THEN 1 WHEN label_norm LIKE '% "@
        + query
        + "%' THEN 2 ELSE 3 END, length(label_norm), label LIMIT "@
        + decimal(limit as nat)
}

/// The statement that searches the lookup table `table` for labels that
/// hold `query`, best match first, and returns `limit` rows at most.
pub fn search_sql(table: &str, query: &str, limit: usize) -> (r: String)
    ensures
        r@ == search_sql_text(table@, query@, limit),
{
    let mut r = "SELECT source_id AS id, label FROM ".to_owned();
    r.append(table);
    r.append(" WHERE label_norm LIKE '%");
    r.append(query);
    r.append("%' ORDER BY CASE WHEN label_norm = '");
    r.append(query);
    r.append("' THEN 0 WHEN label_norm LIKE '");
    r.append(query);
    r.append("%' THEN 1 WHEN label_norm LIKE '% ");
    r.append(query);
    r.append("%' THEN 2 ELSE 3 END, length(label_norm), label LIMIT ");
    push_decimal(&mut r, limit as u64);
    r
}

/// The text of the statement that searches a lookup table for places.
pub open spec fn geocode_sql_text(lookup: Seq<char>, table: Seq<char>, query: Seq<char>, limit: usize) -> Seq<char> {
        "SELECT l.source_id AS id, l.label, CAST(ST_Y(t.geometry) AS DOUBLE) AS lat, "@
            + "CAST(ST_X(t.geometry) AS DOUBLE) AS lon FROM "@
        + lookup
        + " l JOIN "@
        + table
        + " t ON CAST(t.id AS VARCHAR) = l.source_id WHERE l.label_norm LIKE '%"@
        + query
        + "%' ORDER BY CASE WHEN l.label_norm = '"@
        + query
        + "' THEN 0 WHEN l.label_norm LIKE '"@
        + query
        + "%' THEN 1 WHEN l.label_norm LIKE '% "@
        + query
        + "%' THEN 2 ELSE 3 END, length(l.label_norm), l.label LIMIT "@
        + decimal(limit as nat)
}

/// The statement that searches the lookup table `lookup` of `table` for
/// labels that hold `query`, and returns `limit` rows at most, each with
/// the place that `table` holds for it.
pub fn geocode_sql(lookup: &str, table: &str, query: &str, limit: usize) -> (r: String)
    ensures
        r@ == geocode_sql_text(lookup@, table@, query@, limit),
{
    let mut r = "SELECT l.source_id AS id, l.label, CAST(ST_Y(t.geometry) AS DOUBLE) AS lat, ".to_owned();
    r.append("CAST(ST_X(t.geometry) AS DOUBLE) AS lon FROM ");
    r.append(lookup);
    r.append(" l JOIN ");
    r.append(table);
    r.append(" t ON CAST(t.id AS VARCHAR) = l.source_id WHERE l.label_norm LIKE '%");
    r.append(query);
    r.append("%' ORDER BY CASE WHEN l.label_norm = '");
    r.append(query);
    r.append("' THEN 0 WHEN l.label_norm LIKE '");
    r.append(query);
    r.append("%' THEN 1 WHEN l.label_norm LIKE '% ");
    r.append(query);
    r.append("%' THEN 2 ELSE 3 END, length(l.label_norm), l.label LIMIT ");
    push_decimal(&mut r, limit as u64);
    r
}

/// The text of the statement that extracts a bounding box of a release.
pub open spec fn extract_sql_text(table: Seq<char>, source: Seq<char>, xmin: Seq<char>, ymin: Seq<char>, xmax: Seq<char>, ymax: Seq<char>) -> Seq<char> {
        "CREATE OR REPLACE TABLE "@
        + table
        + " AS SELECT * FROM read_parquet('"@
        + source
        + "') WHERE bbox.xmin <= "@
        + xmax
        + " AND bbox.xmax >= "@
        + xmin
        + " AND bbox.ymin <= "@
        + ymax
        + " AND bbox.ymax >= "@
        + ymin
}

/// The statement that fills `table` with what `source` holds within the
/// bounding box. The four bounds are numbers as they are written.
pub fn extract_sql(table: &str, source: &str, xmin: &str, ymin: &str, xmax: &str, ymax: &str) -> (r: String)
    ensures
        r@ == extract_sql_text(table@, source@, xmin@, ymin@, xmax@, ymax@),
{
    let mut r = "CREATE OR REPLACE TABLE ".to_owned();
    r.append(table);
    r.append(" AS SELECT * FROM read_parquet('");
    r.append(source);
    r.append("') WHERE bbox.xmin <= ");
    r.append(xmax);
    r.append(" AND bbox.xmax >= ");
    r.append(xmin);
    r.append(" AND bbox.ymin <= ");
    r.append(ymax);
    r.append(" AND bbox.ymax >= ");
    r.append(ymin);
    r
}

/// The text of the statement that counts the rows of a table.
pub open spec fn count_sql_text(table: Seq<char>) -> Seq<char> {
        "SELECT COUNT(*) FROM "@
        + table
}

/// The statement that counts the rows of `table`.
pub fn count_sql(table: &str) -> (r: String)
    ensures
        r@ == count_sql_text(table@),
{
    let mut r = "SELECT COUNT(*) FROM ".to_owned();
    r.append(table);
    r
}

/// Whether the labels of a theme are made without looking at the columns of
/// its table: they are for the addresses theme only.
pub fn labels_from_address_parts(theme: &str) -> (r: bool)
    ensures
        r == (theme@ == "addresses"@),
{
    str_eq(theme, "addresses")
}

/// The text of the statement that fills a lookup table. The addresses theme
/// is labelled by the parts of an address; any other theme by its names
/// where the table has such a column, and by its identifier otherwise.
pub open spec fn lookup_table_sql_text(
    lookup: Seq<char>,
    source: Seq<char>,
    theme: Seq<char>,
    has_names: bool,
) -> Seq<char> {
    if theme == "addresses"@ {
            "CREATE OR REPLACE TABLE "@
            + lookup
            + " AS SELECT CAST(id AS VARCHAR) AS source_id, trim(regexp_replace( concat_ws(' "@
            + "', coalesce(number, ''), coalesce(street, ''), coalesce(postal_city, ''), coalesce(postcode, "@
            + "''), coalesce(country, '') ), '\\s+', ' ' )) AS label, lower(trim(regexp_replace( "@
            + "concat_ws(' ', coalesce(number, ''), coalesce(street, ''), coalesce(postal_city, "@
            + "''), coalesce(postcode, ''), coalesce(country, '') ), '\\s+', ' ' ))) AS label_norm "@
            + "FROM "@
            + source
            + " WHERE trim(regexp_replace( concat_ws(' ', coalesce(number, ''), coalesce(street, "@
            + "''), coalesce(postal_city, ''), coalesce(postcode, ''), coalesce(country, '') "@
            + "), '\\s+', ' ' )) != ''"@
    } else if has_names {
            "CREATE OR REPLACE TABLE "@
            + lookup
            + " AS SELECT CAST(id AS VARCHAR) AS source_id, trim(CAST(names AS VARCHAR)) AS "@
            + "label, lower(trim(CAST(names AS VARCHAR))) AS label_norm FROM "@
            + source
            + " WHERE names IS NOT NULL AND trim(CAST(names AS VARCHAR)) != ''"@
    } else {
            "CREATE OR REPLACE TABLE "@
            + lookup
            + " AS SELECT CAST(id AS VARCHAR) AS source_id, CAST(id AS VARCHAR) AS label, lower(CAST(id "@
            + "AS VARCHAR)) AS label_norm FROM "@
            + source
    }
}

/// The statement that fills the lookup table `lookup` from `source`.
/// `has_names` says whether `source` has a column `names`; it is not looked
/// at for the addresses theme.
pub fn lookup_table_sql(lookup: &str, source: &str, theme: &str, has_names: bool) -> (r: String)
    ensures
        r@ == lookup_table_sql_text(lookup@, source@, theme@, has_names),
{
    if labels_from_address_parts(theme) {
        let mut r = "CREATE OR REPLACE TABLE ".to_owned();
        r.append(lookup);
        r.append(" AS SELECT CAST(id AS VARCHAR) AS source_id, trim(regexp_replace( concat_ws(' ");
        r.append("', coalesce(number, ''), coalesce(street, ''), coalesce(postal_city, ''), coalesce(postcode, ");
        r.append("''), coalesce(country, '') ), '\\s+', ' ' )) AS label, lower(trim(regexp_replace( ");
        r.append("concat_ws(' ', coalesce(number, ''), coalesce(street, ''), coalesce(postal_city, ");
        r.append("''), coalesce(postcode, ''), coalesce(country, '') ), '\\s+', ' ' ))) AS label_norm ");
        r.append("FROM ");
        r.append(source);
        r.append(" WHERE trim(regexp_replace( concat_ws(' ', coalesce(number, ''), coalesce(street, ");
        r.append("''), coalesce(postal_city, ''), coalesce(postcode, ''), coalesce(country, '') ");
        r.append("), '\\s+', ' ' )) != ''");
        r
    } else if has_names {
        let mut r = "CREATE OR REPLACE TABLE ".to_owned();
        r.append(lookup);
        r.append(" AS SELECT CAST(id AS VARCHAR) AS source_id, trim(CAST(names AS VARCHAR)) AS ");
        r.append("label, lower(trim(CAST(names AS VARCHAR))) AS label_norm FROM ");
        r.append(source);
        r.append(" WHERE names IS NOT NULL AND trim(CAST(names AS VARCHAR)) != ''");
        r
    } else {
        let mut r = "CREATE OR REPLACE TABLE ".to_owned();
        r.append(lookup);
        r.append(" AS SELECT CAST(id AS VARCHAR) AS source_id, CAST(id AS VARCHAR) AS label, lower(CAST(id ");
        r.append("AS VARCHAR)) AS label_norm FROM ");
        r.append(source);
        r
    }
}

/// The mathematical content of an [`ExtractPlan`].
pub struct ExtractPlanModel {
    pub table: Seq<char>,
    pub lookup_table: Seq<char>,
    pub release: Seq<char>,
    pub source_path: Seq<char>,
}

/// What an extraction works on.
#[derive(Debug, Clone, PartialEq, Eq)]
pub struct ExtractPlan {
    /// The table to fill.
    pub table: String,
    /// The table that gets its labels.
    pub lookup_table: String,
    /// The release that is read.
    pub release: String,
    /// Where the release is read from.
    pub source_path: String,
}

impl View for ExtractPlan {
    type V = ExtractPlanModel;

    open spec fn view(&self) -> ExtractPlanModel {
        ExtractPlanModel {
            table: self.table@,
            lookup_table: self.lookup_table@,
            release: self.release@,
            source_path: self.source_path@,
        }
    }
}

/// What an extraction works on: the table named, or the default one, which
/// must have a valid name; the release configured, or the pinned one.
pub open spec fn extract_plan_of(
    theme: Seq<char>,
    item_type: Seq<char>,
    table_name: Option<Seq<char>>,
    release: Option<Seq<char>>,
) -> Result<ExtractPlanModel, OvertureError> {
    let table = match table_name {
        Some(name) => name,
        None => default_table_text(theme, item_type),
    };
    let release = match release {
        Some(r) => r,
        None => OVERTURE_RELEASE@,
    };
    if table.len() == 0 {
        Err(OvertureError::Table(IdentifierError::Empty))
    } else if !valid_table_name(table) {
        Err(OvertureError::Table(IdentifierError::Invalid))
    } else {
        Ok(
            ExtractPlanModel {
                table,
                lookup_table: lookup_table_text(table),
                release,
                source_path: source_path_text(release, theme, item_type),
            },
        )
    }
}

/// Plans an extraction.
pub fn plan_extract(
    theme: &str,
    item_type: &str,
    table_name: &Option<String>,
    release: &Option<String>,
) -> (r: Result<ExtractPlan, OvertureError>)
    ensures
        match r {
            Ok(plan) => extract_plan_of(
                theme@,
                item_type@,
                opt_text(*table_name),
                opt_text(*release),
            ) == Ok::<ExtractPlanModel, OvertureError>(plan@),
            Err(e) => extract_plan_of(theme@, item_type@, opt_text(*table_name), opt_text(*release))
                == Err::<ExtractPlanModel, OvertureError>(e),
        },
{
    let table = match table_name {
        Some(name) => name.clone(),
        None => default_table_name(theme, item_type),
    };
    match validate_table_name(table.as_str()) {
        Ok(()) => {},
        Err(e) => {
            return Err(OvertureError::Table(e));
        },
    }
    let release = match release {
        Some(r) => r.clone(),
        None => OVERTURE_RELEASE.to_owned(),
    };
    let source_path = overture_source_path(release.as_str(), theme, item_type);
    let lookup_table = lookup_table_name(table.as_str());
    Ok(ExtractPlan { table, lookup_table, release, source_path })
}

/// The statement of a search, or the reason why there is none: the table
/// must have a valid name and the query must not be blank.
pub open spec fn search_plan_of(table_name: Seq<char>, query: Seq<char>, limit: usize) -> Result<
    Seq<char>,
    OvertureError,
> {
    if table_name.len() == 0 {
        Err(OvertureError::Table(IdentifierError::Empty))
    } else if !valid_table_name(table_name) {
        Err(OvertureError::Table(IdentifierError::Invalid))
    } else if is_blank(query) {
        Err(OvertureError::EmptySearchQuery)
    } else {
        Ok(
            search_sql_text(
                lookup_table_text(table_name),
                normalized_query(query),
                limit_in_force(limit),
            ),
        )
    }
}

/// Plans a search of `table_name` for `query`.
pub fn plan_search(table_name: &str, query: &str, limit: usize) -> (r: Result<String, OvertureError>)
    ensures
        match r {
            Ok(sql) => search_plan_of(table_name@, query@, limit) == Ok::<Seq<char>, OvertureError>(
                sql@,
            ),
            Err(e) => search_plan_of(table_name@, query@, limit) == Err::<Seq<char>, OvertureError>(
                e,
            ),
        },
{
    match validate_table_name(table_name) {
        Ok(()) => {},
        Err(e) => {
            return Err(OvertureError::Table(e));
        },
    }
    if blank(query) {
        return Err(OvertureError::EmptySearchQuery);
    }
    let limit: usize = safe_limit(limit);
    let lookup = lookup_table_name(table_name);
    let normalized = normalize_query(query);
    Ok(search_sql(lookup.as_str(), normalized.as_str(), limit))
}

/// The statement of a search for an address, or the reason why there is
/// none: the table must have a valid name and the query must not be blank.
pub open spec fn geocode_plan_of(table_name: Seq<char>, query: Seq<char>, limit: usize) -> Result<
    Seq<char>,
    OvertureError,
> {
    if table_name.len() == 0 {
        Err(OvertureError::Table(IdentifierError::Empty))
    } else if !valid_table_name(table_name) {
        Err(OvertureError::Table(IdentifierError::Invalid))
    } else if is_blank(query) {
        Err(OvertureError::EmptyGeocodeQuery)
    } else {
        Ok(
            geocode_sql_text(
                lookup_table_text(table_name),
                table_name,
                normalized_query(query),
                limit_in_force(limit),
            ),
        )
    }
}

/// Plans a search of `table_name` for the address `query`.
pub fn plan_geocode(table_name: &str, query: &str, limit: usize) -> (r: Result<
    String,
    OvertureError,
>)
    ensures
        match r {
            Ok(sql) => geocode_plan_of(table_name@, query@, limit) == Ok::<Seq<char>, OvertureError>(
                sql@,
            ),
            Err(e) => geocode_plan_of(table_name@, query@, limit) == Err::<Seq<char>, OvertureError>(
                e,
            ),
        },
{
    match validate_table_name(table_name) {
        Ok(()) => {},
        Err(e) => {
            return Err(OvertureError::Table(e));
        },
    }
    if blank(query) {
        return Err(OvertureError::EmptyGeocodeQuery);
    }
    let limit: usize = safe_limit(limit);
    let lookup = lookup_table_name(table_name);
    let normalized = normalize_query(query);
    Ok(geocode_sql(lookup.as_str(), table_name, normalized.as_str(), limit))
}

} // verus!
