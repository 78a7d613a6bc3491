//! Builders for every SQL statement the merge runs, each proved to produce
//! exactly the text its specification says.

use vstd::prelude::*;
use vstd::string::{StrSliceExecFns, StringExecFns};

verus! {

/// A character a table name may hold so that splicing the name into a
/// statement cannot change the statement's shape.
pub open spec fn is_identifier_char(c: char) -> bool {
    c == '_' || ('a' as u32) <= (c as u32) <= ('z' as u32) || ('A' as u32) <= (c as u32) <= (
    'Z' as u32) || ('0' as u32) <= (c as u32) <= ('9' as u32)
}

/// A plain identifier: non-empty, letters, digits and underscores only.
/// Every statement builder below is safe for such a table name — it cannot
/// smuggle clauses, quotes or comments into the built text.
pub open spec fn is_identifier(t: Seq<char>) -> bool {
    t.len() >= 1 && forall|i: int| 0 <= i < t.len() ==> is_identifier_char(#[trigger] t[i])
}

/// Identifier check, executable.
pub fn check_identifier(s: &str) -> (r: bool)
    ensures
        r == is_identifier(s@),
{
    let n = s.unicode_len();
    if n == 0 {
        return false;
    }
    let mut i: usize = 0;
    while i < n
        invariant
            n == s@.len(),
            n >= 1,
            i <= n,
            forall|q: int| 0 <= q < i ==> is_identifier_char(#[trigger] s@[q]),
        decreases n - i,
    {
        let c = s.get_char(i);
        let ok = c == '_' || ('a' <= c && c <= 'z') || ('A' <= c && c <= 'Z') || ('0' <= c && c
            <= '9');
        if !ok {
            return false;
        }
        i += 1;
    }
    true
}

/// The query listing the user tables of a database; the sequence-tracking
/// system table is excluded by name.
pub open spec fn table_names_sql_spec() -> Seq<char> {
    "SELECT name FROM sqlite_master WHERE type = 'table' AND name != 'sqlite_sequence'"@
}

pub fn table_names_sql() -> (r: String)
    ensures
        r@ == table_names_sql_spec(),
{
    "SELECT name FROM sqlite_master WHERE type = 'table' AND name != 'sqlite_sequence'".to_owned()
}

pub open spec fn table_info_sql_spec(table: Seq<char>) -> Seq<char> {
    "PRAGMA table_info("@ + table + ")"@
}

/// `PRAGMA table_info(<table>)`.
pub fn table_info_sql(table: &str) -> (r: String)
    ensures
        r@ == table_info_sql_spec(table@),
{
    let mut s = "PRAGMA table_info(".to_owned();
    s.append(table);
    s.append(")");
    s
}

pub open spec fn count_sql_spec(table: Seq<char>) -> Seq<char> {
    "SELECT COUNT(*) FROM "@ + table
}

/// `SELECT COUNT(*) FROM <table>`.
pub fn count_sql(table: &str) -> (r: String)
    ensures
        r@ == count_sql_spec(table@),
{
    let mut s = "SELECT COUNT(*) FROM ".to_owned();
    s.append(table);
    s
}

pub open spec fn last_row_sql_spec(table: Seq<char>) -> Seq<char> {
    "SELECT * FROM "@ + table + " LIMIT 1 OFFSET ?1"@
}

/// The query reading the single row at a bound offset, in row order.
pub fn last_row_sql(table: &str) -> (r: String)
    ensures
        r@ == last_row_sql_spec(table@),
{
    let mut s = "SELECT * FROM ".to_owned();
    s.append(table);
    s.append(" LIMIT 1 OFFSET ?1");
    s
}

pub open spec fn select_batch_sql_spec(table: Seq<char>) -> Seq<char> {
    "SELECT * FROM "@ + table + " LIMIT ?1 OFFSET ?2"@
}

/// The query reading one batch window of a table's rows.
pub fn select_batch_sql(table: &str) -> (r: String)
    ensures
        r@ == select_batch_sql_spec(table@),
{
    let mut s = "SELECT * FROM ".to_owned();
    s.append(table);
    s.append(" LIMIT ?1 OFFSET ?2");
    s
}

/// `ncols` placeholders separated by commas: `?,?,...,?`.
pub open spec fn placeholders_spec(ncols: int) -> Seq<char>
    decreases ncols,
{
    if ncols <= 1 {
        "?"@
    } else {
        placeholders_spec(ncols - 1) + ",?"@
    }
}

/// One parenthesised row group of `ncols` placeholders.
pub open spec fn row_group_spec(ncols: int) -> Seq<char> {
    "("@ + placeholders_spec(ncols) + ")"@
}

/// `nrows` row groups separated by commas.
pub open spec fn groups_spec(ncols: int, nrows: int) -> Seq<char>
    decreases nrows,
{
    if nrows <= 1 {
        row_group_spec(ncols)
    } else {
        groups_spec(ncols, nrows - 1) + ","@ + row_group_spec(ncols)
    }
}

/// The single multi-row insert statement covering one whole batch.
pub open spec fn insert_sql_spec(table: Seq<char>, ncols: int, nrows: int) -> Seq<char> {
    "INSERT INTO "@ + table + " VALUES "@ + groups_spec(ncols, nrows)
}

/// `INSERT INTO <table> VALUES (?,...,?),...,(?,...,?)` with `nrows` groups
/// of `ncols` placeholders each.
pub fn insert_sql(table: &str, ncols: usize, nrows: usize) -> (r: String)
    requires
        ncols >= 1,
        nrows >= 1,
    ensures
        r@ == insert_sql_spec(table@, ncols as int, nrows as int),
{
    let mut ph = "?".to_owned();
    let mut i: usize = 1;
    while i < ncols
        invariant
            1 <= i <= ncols,
            ph@ == placeholders_spec(i as int),
        decreases ncols - i,
    {
        ph.append(",?");
        i += 1;
    }
    let mut group = "(".to_owned();
    group.append(ph.as_str());
    group.append(")");
    assert(group@ == row_group_spec(ncols as int));
    let mut s = "INSERT INTO ".to_owned();
    s.append(table);
    s.append(" VALUES ");
    s.append(group.as_str());
    assert(s@ == insert_sql_spec(table@, ncols as int, 1));
    let mut j: usize = 1;
    while j < nrows
        invariant
            1 <= j <= nrows,
            ncols >= 1,
            group@ == row_group_spec(ncols as int),
            s@ == insert_sql_spec(table@, ncols as int, j as int),
        decreases nrows - j,
    {
        s.append(",");
        s.append(group.as_str());
        assert(s@ == insert_sql_spec(table@, ncols as int, j + 1));
        j += 1;
    }
    s
}

} // verus!
