//! The text of the statements that a run hands to the query engine.
//!
//! The warehouse is attached under a fixed catalog alias, and the destination
//! is one fixed table of that catalog. The connection string and the source
//! location are placed between single quotes exactly as they were given.

use vstd::prelude::*;
use vstd::string::StringExecFns;

verus! {

/// The alias under which the warehouse is attached.
pub open spec fn catalog_alias_text() -> Seq<char> {
    "pg"@
}

/// The name of the destination table inside the warehouse.
pub open spec fn destination_table_text() -> Seq<char> {
    "yellow_tripdata_rust"@
}

/// The destination table, qualified by the catalog alias.
pub open spec fn destination_text() -> Seq<char> {
    catalog_alias_text() + "."@ + destination_table_text()
}

/// The statement that attaches the warehouse reached by `connection_url`.
pub open spec fn attach_text(connection_url: Seq<char>) -> Seq<char> {
    "ATTACH '"@ + connection_url + "' AS "@ + catalog_alias_text() + " (TYPE postgres)"@
}

/// The statement that removes the destination table if there is one.
pub open spec fn drop_text() -> Seq<char> {
    "DROP TABLE IF EXISTS "@ + destination_text()
}

/// The statement that creates the destination table from the rows of the
/// parquet file at `source`.
pub open spec fn create_text(source: Seq<char>) -> Seq<char> {
    "CREATE TABLE "@ + destination_text() + " AS SELECT * FROM read_parquet('"@ + source + "')"@
}

/// The line that announces which file goes to which table.
pub open spec fn progress_text(source: Seq<char>) -> Seq<char> {
    "DuckDB: IMPORTING "@ + source + " to "@ + destination_text() + " ..."@
}

/// The alias under which the warehouse is attached.
pub fn catalog_alias() -> (alias: &'static str)
    ensures
        alias@ == catalog_alias_text(),
{
    "pg"
}

/// The name of the destination table inside the warehouse.
pub fn destination_table() -> (table: &'static str)
    ensures
        table@ == destination_table_text(),
{
    "yellow_tripdata_rust"
}

/// The destination table, qualified by the catalog alias.
pub fn destination() -> (name: String)
    ensures
        name@ == destination_text(),
{
    let mut name = String::from_str(catalog_alias());
    name.append(".");
    name.append(destination_table());
    name
}

/// Builds the statement that attaches the warehouse reached by `connection_url`
/// under the catalog alias.
pub fn attach_statement(connection_url: &str) -> (sql: String)
    ensures
        sql@ == attach_text(connection_url@),
{
    let mut sql = String::from_str("ATTACH '");
    sql.append(connection_url);
    sql.append("' AS ");
    sql.append(catalog_alias());
    sql.append(" (TYPE postgres)");
    sql
}

/// Builds the statement that removes the destination table; the statement is
/// in order whether or not the table exists.
pub fn drop_statement() -> (sql: String)
    ensures
        sql@ == drop_text(),
{
    let mut sql = String::from_str("DROP TABLE IF EXISTS ");
    let name = destination();
    sql.append(name.as_str());
    sql
}

/// Builds the statement that creates the destination table and fills it, in
/// one step, with every row of the parquet file at `source`.
pub fn create_statement(source: &str) -> (sql: String)
    ensures
        sql@ == create_text(source@),
{
    let mut sql = String::from_str("CREATE TABLE ");
    let name = destination();
    sql.append(name.as_str());
    sql.append(" AS SELECT * FROM read_parquet('");
    sql.append(source);
    sql.append("')");
    sql
}

/// Builds the line that announces which file goes to which table.
pub fn progress_line(source: &str) -> (line: String)
    ensures
        line@ == progress_text(source@),
{
    let mut line = String::from_str("DuckDB: IMPORTING ");
    line.append(source);
    line.append(" to ");
    let name = destination();
    line.append(name.as_str());
    line.append(" ...");
    line
}

/// The statements written out in full: the alias and the table name stand in
/// them as in the qualified name `pg.yellow_tripdata_rust`.
pub proof fn lemma_statements_in_full(connection_url: Seq<char>, source: Seq<char>)
    ensures
        destination_text() == "pg.yellow_tripdata_rust"@,
        attach_text(connection_url) == "ATTACH '"@ + connection_url + "' AS pg (TYPE postgres)"@,
        drop_text() == "DROP TABLE IF EXISTS pg.yellow_tripdata_rust"@,
        create_text(source) == "CREATE TABLE pg.yellow_tripdata_rust AS SELECT * FROM read_parquet('"@
            + source + "')"@,
        progress_text(source) == "DuckDB: IMPORTING "@ + source + " to pg.yellow_tripdata_rust ..."@,
{
    reveal_strlit("pg");
    reveal_strlit(".");
    reveal_strlit("yellow_tripdata_rust");
    reveal_strlit("pg.yellow_tripdata_rust");
    reveal_strlit("' AS ");
    reveal_strlit(" (TYPE postgres)");
    reveal_strlit("' AS pg (TYPE postgres)");
    reveal_strlit("DROP TABLE IF EXISTS ");
    reveal_strlit("DROP TABLE IF EXISTS pg.yellow_tripdata_rust");
    reveal_strlit("CREATE TABLE ");
    reveal_strlit(" AS SELECT * FROM read_parquet('");
    reveal_strlit("CREATE TABLE pg.yellow_tripdata_rust AS SELECT * FROM read_parquet('");
    reveal_strlit(" to ");
    reveal_strlit(" ...");
    reveal_strlit(" to pg.yellow_tripdata_rust ...");
}

} // verus!
