//! The trusted boundary around the SQLite driver.
//!
//! Every function here is `external_body`: its body makes one driver call
//! (plus the conversions of its arguments and result) and Verus believes the
//! stated contract.  Nothing else in the library touches the driver.

use vstd::prelude::*;

use crate::schema::ColumnDescriptor;
use crate::values::SqlValue;

verus! {

#[verifier::external_type_specification]
#[verifier::external_body]
pub struct ExConnection(rusqlite::Connection);

#[verifier::external_type_specification]
#[verifier::external_body]
pub struct ExError(rusqlite::Error);

#[verifier::external_type_specification]
#[verifier::external_body]
pub struct ExValue(rusqlite::types::Value);

/// Relies on `rusqlite::Connection::open`: opens the database file at
/// `path`, creating it if it does not exist.
#[verifier::external_body]
pub(crate) fn open_connection(path: &str) -> (r: Result<rusqlite::Connection, rusqlite::Error>) {
    rusqlite::Connection::open(path)
}

/// Relies on `rusqlite::Connection::execute` running `VACUUM INTO ?1`:
/// SQLite writes a complete copy of the open database into the file named
/// by the bound parameter, and fails if that file already exists.
#[verifier::external_body]
pub(crate) fn copy_database_into(conn: &rusqlite::Connection, dst_path: &str) -> (r: Result<
    (),
    rusqlite::Error,
>) {
    match conn.execute("VACUUM INTO ?1", (dst_path,)) {
        Ok(_) => Ok(()),
        Err(e) => Err(e),
    }
}

/// Relies on `rusqlite::Connection::prepare`, `Statement::query`,
/// `Rows::next` and `Row::get`: runs `sql` and returns the first column of
/// every resulting row as text, in row order.
#[verifier::external_body]
pub(crate) fn query_strings(conn: &rusqlite::Connection, sql: &str) -> (r: Result<
    Vec<String>,
    rusqlite::Error,
>) {
    let mut stmt = conn.prepare(sql)?;
    let mut rows = stmt.query(())?;
    let mut out: Vec<String> = Vec::new();
    while let Some(row) = rows.next()? {
        out.push(row.get(0)?);
    }
    Ok(out)
}

/// Relies on `rusqlite::Connection::prepare`, `Statement::query`,
/// `Rows::next` and `Row::get`: runs `sql` (a `PRAGMA table_info`) and reads
/// each row's six columns into a [`ColumnDescriptor`], the default-value
/// column only as a presence flag.
#[verifier::external_body]
pub(crate) fn query_columns(conn: &rusqlite::Connection, sql: &str) -> (r: Result<
    Vec<ColumnDescriptor>,
    rusqlite::Error,
>) {
    let mut stmt = conn.prepare(sql)?;
    let mut rows = stmt.query(())?;
    let mut out: Vec<ColumnDescriptor> = Vec::new();
    while let Some(row) = rows.next()? {
        let has_default = matches!(row.get::<_, Option<String>>(4), Ok(Some(_)));
        let (cid, name, decl_type) = (row.get(0)?, row.get(1)?, row.get(2)?);
        let (notnull, pk) = (row.get(3)?, row.get(5)?);
        out.push(ColumnDescriptor { cid, name, decl_type, notnull, has_default, pk });
    }
    Ok(out)
}

/// Relies on `rusqlite::Connection::prepare`, `Statement::query`,
/// `Rows::next` and `Row::get`: runs `sql` and returns the first column of
/// its first row as an integer.
#[verifier::external_body]
pub(crate) fn query_count(conn: &rusqlite::Connection, sql: &str) -> (r: Result<
    i64,
    rusqlite::Error,
>) {
    let mut stmt = conn.prepare(sql)?;
    let mut rows = stmt.query(())?;
    match rows.next()? {
        Some(row) => row.get(0),
        None => Err(rusqlite::Error::QueryReturnedNoRows),
    }
}

/// Relies on `rusqlite::Connection::prepare`, `Statement::query` with one
/// bound parameter, `Rows::next` and `Row::get`: runs `sql` binding `param`,
/// and returns column `col` of the first resulting row as an integer.
#[verifier::external_body]
pub(crate) fn query_i64_at(
    conn: &rusqlite::Connection,
    sql: &str,
    param: i64,
    col: usize,
) -> (r: Result<i64, rusqlite::Error>) {
    let mut stmt = conn.prepare(sql)?;
    let mut rows = stmt.query((param,))?;
    match rows.next()? {
        Some(row) => row.get(col),
        None => Err(rusqlite::Error::QueryReturnedNoRows),
    }
}

/// Relies on `rusqlite::Connection::prepare`, `Statement::query` with two
/// bound parameters, `Rows::next` and `Row::get`: runs `sql` — which must
/// be a batch-select statement, `SELECT * FROM <table> LIMIT ?1 OFFSET ?2`
/// with a plain identifier as the table name, since only then does the
/// spliced text keep that shape and SQLite's `LIMIT` make the length bound
/// below true — reads
/// the first `ncols` columns of every resulting row (an unreadable column
/// becomes `NULL`, each driver variant becomes the library variant of the
/// same name) and returns them flattened in row-major order.  SQLite
/// returns at most `limit` rows, so the result holds at most
/// `limit * ncols` values.
#[verifier::external_body]
pub(crate) fn query_batch_raw(
    conn: &rusqlite::Connection,
    sql: &str,
    limit: i64,
    offset: i64,
    ncols: usize,
) -> (r: Result<Vec<SqlValue>, rusqlite::Error>)
    requires
        exists|t: Seq<char>|
            sql@ == crate::sql::select_batch_sql_spec(t) && crate::sql::is_identifier(t),
        limit >= 0,
        ncols >= 1,
    ensures
        r matches Ok(flat) ==> (flat@.len() as int) % (ncols as int) == 0 && flat@.len() <= limit
            * ncols,
{
    let mut stmt = conn.prepare(sql)?;
    let mut rows = stmt.query((limit, offset))?;
    let mut out: Vec<SqlValue> = Vec::new();
    while let Some(row) = rows.next()? {
        for i in 0..ncols {
            out.push(match row.get(i).unwrap_or(rusqlite::types::Value::Null) {
                rusqlite::types::Value::Null => SqlValue::Null,
                rusqlite::types::Value::Integer(v) => SqlValue::Integer(v),
                rusqlite::types::Value::Text(s) => SqlValue::Text(s),
                rusqlite::types::Value::Blob(b) => SqlValue::Blob(b),
                other => SqlValue::Real(other),
            });
        }
    }
    Ok(out)
}

/// Relies on `rusqlite::Connection::execute` with
/// `rusqlite::params_from_iter`: runs `sql` binding `params` in order —
/// each library variant becomes the driver variant of the same name,
/// payload cloned — and returns the number of rows the statement changed.
#[verifier::external_body]
pub(crate) fn execute_with_params(
    conn: &rusqlite::Connection,
    sql: &str,
    params: &Vec<SqlValue>,
) -> (r: Result<usize, rusqlite::Error>) {
    let mut ps: Vec<rusqlite::types::Value> = Vec::new();
    for v in params.iter() {
        ps.push(match v {
            SqlValue::Null => rusqlite::types::Value::Null,
            SqlValue::Integer(i) => rusqlite::types::Value::Integer(*i),
            SqlValue::Text(s) => rusqlite::types::Value::Text(s.clone()),
            SqlValue::Blob(b) => rusqlite::types::Value::Blob(b.clone()),
            SqlValue::Real(r) => r.clone(),
        });
    }
    conn.execute(sql, rusqlite::params_from_iter(ps))
}

} // verus!
