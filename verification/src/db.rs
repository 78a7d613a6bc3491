//! The merge orchestrator: seed the destination from the first source,
//! inspect the schema once, pick one key strategy per table, then stream
//! every remaining source through the batch transfer engine.

use vstd::prelude::*;

use crate::batch::seed_counter;
use crate::schema::{
    classify_columns, composite_key, is_integer_decl, no_key, sole_key_at, KeyClass,
    PrimaryKeyStrategy, TableDescriptor,
};
use crate::sql::{self, check_identifier, is_identifier};
use crate::sqlite;
use crate::transfer::{report_wf, transfer_table, TransferReport};

verus! {

/// The batch size a caller uses when nothing else was asked for.
pub const DEFAULT_BATCH_SIZE: usize = 500;

/// Why a merge run aborted.  Per-batch insert failures never abort a run:
/// they are recorded in the summary instead.
#[derive(Debug)]
pub enum MergeError {
    /// The ordered source list was empty.
    EmptySourceList,
    /// The seed copy of the first source into the destination failed.
    IoError(rusqlite::Error),
    /// A connection could not be opened: the destination, or a later source.
    OpenError(rusqlite::Error),
    /// The destination's schema could not be read.
    SchemaError(rusqlite::Error),
    /// A table declares a composite primary key, which the merge does not
    /// support; it is surfaced rather than silently keyed on one column.
    UnsupportedSchema { table: String },
    /// A table's name is not a plain identifier (letters, digits and
    /// underscores), so no statement can be spliced together for it safely.
    InvalidTableName { table: String },
}

/// A strategy fits a table when its key column index, if it has one, lies
/// inside the table's column sequence.
pub open spec fn strategy_wf(s: PrimaryKeyStrategy, t: TableDescriptor) -> bool {
    match s {
        PrimaryKeyStrategy::IntegerSequence { column_index, .. } => column_index
            < t.columns@.len(),
        PrimaryKeyStrategy::PassThrough { column_index } => column_index < t.columns@.len(),
        PrimaryKeyStrategy::NoPrimaryKey => true,
    }
}

/// The strategy a summary pairs with a table matches the table's columns:
/// no composite key was admitted, a keyless table is `NoPrimaryKey`, a
/// sole non-integer key is passed through at its column, and a sole
/// integer key is either counted at its column or fell back to
/// `NoPrimaryKey` when its seeding queries failed.
pub open spec fn strategy_matches_columns(s: PrimaryKeyStrategy, t: TableDescriptor) -> bool {
    &&& !composite_key(t.columns@)
    &&& no_key(t.columns@) ==> s is NoPrimaryKey
    &&& forall|i: int|
        sole_key_at(t.columns@, i) && !is_integer_decl(t.columns@[i].decl_type@) ==> s == (
        PrimaryKeyStrategy::PassThrough { column_index: i as usize })
    &&& forall|i: int|
        sole_key_at(t.columns@, i) && is_integer_decl(t.columns@[i].decl_type@) ==> (s matches
            PrimaryKeyStrategy::IntegerSequence { column_index, .. } && column_index == i
            || s is NoPrimaryKey)
}

/// Produce one table's key strategy against the destination.
///
/// A composite primary key is surfaced as an explicit unsupported-schema
/// error.  For a single integer key the counter is seeded from the key
/// found at the destination's current last row — the row at offset
/// `count - 1`, deliberately order-dependent — or from zero when the table
/// is empty; if either seeding query fails, the table falls back to
/// `NoPrimaryKey`, trading key safety for keeping the merge running.
pub fn analyze_table(dst: &rusqlite::Connection, table: &TableDescriptor) -> (r: Result<
    PrimaryKeyStrategy,
    MergeError,
>)
    ensures
        r matches Err(e) ==> e matches MergeError::UnsupportedSchema { table: t } && t@
            == table.name@,
        (r is Err) <==> composite_key(table.columns@),
        no_key(table.columns@) ==> r == Ok::<PrimaryKeyStrategy, MergeError>(PrimaryKeyStrategy::NoPrimaryKey),
        forall|i: int|
            sole_key_at(table.columns@, i) && !is_integer_decl(table.columns@[i].decl_type@)
                ==> r == Ok::<PrimaryKeyStrategy, MergeError>(PrimaryKeyStrategy::PassThrough { column_index: i as usize }),
        forall|i: int|
            sole_key_at(table.columns@, i) && is_integer_decl(table.columns@[i].decl_type@) ==> (
            r matches Ok(s) && (s matches PrimaryKeyStrategy::IntegerSequence { column_index, .. }
                && column_index == i || s is NoPrimaryKey)),
        r matches Ok(s) ==> strategy_wf(s, *table) && strategy_matches_columns(s, *table),
{
    match classify_columns(&table.columns) {
        KeyClass::NoKey => Ok(PrimaryKeyStrategy::NoPrimaryKey),
        KeyClass::Composite => Err(
            MergeError::UnsupportedSchema { table: table.name.clone() },
        ),
        KeyClass::NonIntegerKey { column_index } => Ok(
            PrimaryKeyStrategy::PassThrough { column_index },
        ),
        KeyClass::IntegerKey { column_index } => {
            let count_sql = sql::count_sql(table.name.as_str());
            match sqlite::query_count(dst, count_sql.as_str()) {
                Err(_) => Ok(PrimaryKeyStrategy::NoPrimaryKey),
                Ok(c) => {
                    if c <= 0 {
                        Ok(
                            PrimaryKeyStrategy::IntegerSequence {
                                column_index,
                                next_value: seed_counter(c, 0),
                            },
                        )
                    } else {
                        let last_sql = sql::last_row_sql(table.name.as_str());
                        match sqlite::query_i64_at(dst, last_sql.as_str(), c - 1, column_index) {
                            Err(_) => Ok(PrimaryKeyStrategy::NoPrimaryKey),
                            Ok(v) => Ok(
                                PrimaryKeyStrategy::IntegerSequence {
                                    column_index,
                                    next_value: seed_counter(c, v),
                                },
                            ),
                        }
                    }
                },
            }
        },
    }
}

/// What a whole run did: the authoritative table set read from the seeded
/// destination, each table's strategy as it stood when the run ended (an
/// `IntegerSequence` counter holds its final value), and one report per
/// remaining source and table, in source-major order.
pub struct MergeSummary {
    pub tables: Vec<TableDescriptor>,
    pub strategies: Vec<PrimaryKeyStrategy>,
    pub transfers: Vec<TransferReport>,
}

/// Everything a returned summary promises.
pub open spec fn summary_wf(s: MergeSummary, n_sources: int, batch_size: int) -> bool {
    &&& s.strategies@.len() == s.tables@.len()
    &&& forall|k: int|
        0 <= k < s.tables@.len() ==> is_identifier((#[trigger] s.tables@[k]).name@)
    &&& forall|k: int|
        0 <= k < s.tables@.len() ==> strategy_wf(#[trigger] s.strategies@[k], s.tables@[k])
    &&& forall|k: int|
        0 <= k < s.tables@.len() ==> strategy_matches_columns(
            #[trigger] s.strategies@[k],
            s.tables@[k],
        )
    &&& s.transfers@.len() == (n_sources - 1) * s.tables@.len()
    &&& forall|k: int|
        0 <= k < s.transfers@.len() ==> report_wf(#[trigger] s.transfers@[k], batch_size)
    &&& forall|k: int|
        0 <= k < s.transfers@.len() ==> (#[trigger] s.transfers@[k]).source_index == 1 + k / (
        s.tables@.len() as int)
    &&& forall|k: int|
        0 <= k < s.transfers@.len() ==> (#[trigger] s.transfers@[k]).table@ == s.tables@[k % (
        s.tables@.len() as int)].name@
}

/// Merge every source file into `dst_file`.
///
/// The destination is seeded with a complete copy of the first source; the
/// schema and the key strategies are then read once from it and used for
/// every remaining source.  A source that cannot be opened is fatal, and so
/// is a table whose name is not a plain identifier — its name cannot be
/// spliced into a statement safely; a failed batch only loses that batch's
/// rows and is recorded in the summary.
pub fn merge_tables(src_files: &Vec<String>, dst_file: &String, batch_size: usize) -> (r: Result<
    MergeSummary,
    MergeError,
>)
    requires
        1 <= batch_size <= i64::MAX,
    ensures
        (r matches Err(e) && e is EmptySourceList) <==> src_files@.len() == 0,
        r matches Ok(s) ==> summary_wf(s, src_files@.len() as int, batch_size as int),
{
    if src_files.len() == 0 {
        return Err(MergeError::EmptySourceList);
    }
    let seed_conn = match sqlite::open_connection(src_files[0].as_str()) {
        Ok(c) => c,
        Err(e) => {
            return Err(MergeError::IoError(e));
        },
    };
    match sqlite::copy_database_into(&seed_conn, dst_file.as_str()) {
        Ok(_) => (),
        Err(e) => {
            return Err(MergeError::IoError(e));
        },
    }
    let dst = match sqlite::open_connection(dst_file.as_str()) {
        Ok(c) => c,
        Err(e) => {
            return Err(MergeError::OpenError(e));
        },
    };
    let names_sql = sql::table_names_sql();
    let names = match sqlite::query_strings(&dst, names_sql.as_str()) {
        Ok(n) => n,
        Err(e) => {
            return Err(MergeError::SchemaError(e));
        },
    };
    let mut tables: Vec<TableDescriptor> = Vec::new();
    let mut strategies: Vec<PrimaryKeyStrategy> = Vec::new();
    let mut t: usize = 0;
    while t < names.len()
        invariant
            strategies@.len() == tables@.len(),
            forall|k: int|
                0 <= k < tables@.len() ==> (#[trigger] tables@[k]).columns@.len() >= 1,
            forall|k: int|
                0 <= k < tables@.len() ==> is_identifier((#[trigger] tables@[k]).name@),
            forall|k: int|
                0 <= k < tables@.len() ==> strategy_wf(#[trigger] strategies@[k], tables@[k]),
            forall|k: int|
                0 <= k < tables@.len() ==> strategy_matches_columns(
                    #[trigger] strategies@[k],
                    tables@[k],
                ),
            src_files@.len() > 0,
        decreases names@.len() - t,
    {
        if !check_identifier(names[t].as_str()) {
            return Err(MergeError::InvalidTableName { table: names[t].clone() });
        }
        let info_sql = sql::table_info_sql(names[t].as_str());
        let cols = match sqlite::query_columns(&dst, info_sql.as_str()) {
            Ok(c) => c,
            Err(e) => {
                return Err(MergeError::SchemaError(e));
            },
        };
        // A name listed by the schema query always has at least one column;
        // a table that reports none anyway is dropped rather than queried.
        if cols.len() > 0 {
            let td = TableDescriptor { name: names[t].clone(), columns: cols };
            let strategy = match analyze_table(&dst, &td) {
                Ok(s) => s,
                Err(e) => {
                    return Err(e);
                },
            };
            tables.push(td);
            strategies.push(strategy);
        }
        t += 1;
    }
    let mut transfers: Vec<TransferReport> = Vec::new();
    let mut s: usize = 1;
    while s < src_files.len()
        invariant
            1 <= s <= src_files@.len(),
            1 <= batch_size <= i64::MAX,
            strategies@.len() == tables@.len(),
            forall|k: int|
                0 <= k < tables@.len() ==> (#[trigger] tables@[k]).columns@.len() >= 1,
            forall|k: int|
                0 <= k < tables@.len() ==> is_identifier((#[trigger] tables@[k]).name@),
            forall|k: int|
                0 <= k < tables@.len() ==> strategy_wf(#[trigger] strategies@[k], tables@[k]),
            forall|k: int|
                0 <= k < tables@.len() ==> strategy_matches_columns(
                    #[trigger] strategies@[k],
                    tables@[k],
                ),
            transfers@.len() == (s - 1) * tables@.len(),
            forall|k: int|
                0 <= k < transfers@.len() ==> report_wf(
                    #[trigger] transfers@[k],
                    batch_size as int,
                ),
            forall|k: int|
                0 <= k < transfers@.len() ==> (#[trigger] transfers@[k]).source_index == 1 + k / (
                tables@.len() as int),
            forall|k: int|
                0 <= k < transfers@.len() ==> (#[trigger] transfers@[k]).table@ == tables@[k % (
                tables@.len() as int)].name@,
        decreases src_files@.len() - s,
    {
        let src_conn = match sqlite::open_connection(src_files[s].as_str()) {
            Ok(c) => c,
            Err(e) => {
                return Err(MergeError::OpenError(e));
            },
        };
        let mut t: usize = 0;
        while t < tables.len()
            invariant
                t <= tables@.len(),
                1 <= batch_size <= i64::MAX,
                strategies@.len() == tables@.len(),
                forall|k: int|
                    0 <= k < tables@.len() ==> (#[trigger] tables@[k]).columns@.len() >= 1,
                forall|k: int|
                    0 <= k < tables@.len() ==> is_identifier((#[trigger] tables@[k]).name@),
                forall|k: int|
                    0 <= k < tables@.len() ==> strategy_wf(#[trigger] strategies@[k], tables@[k]),
                forall|k: int|
                    0 <= k < tables@.len() ==> strategy_matches_columns(
                        #[trigger] strategies@[k],
                        tables@[k],
                    ),
                transfers@.len() == (s - 1) * tables@.len() + t,
                forall|k: int|
                    0 <= k < transfers@.len() ==> report_wf(
                        #[trigger] transfers@[k],
                        batch_size as int,
                    ),
                forall|k: int|
                    0 <= k < transfers@.len() ==> (#[trigger] transfers@[k]).source_index == 1 + k
                        / (tables@.len() as int),
                forall|k: int|
                    0 <= k < transfers@.len() ==> (#[trigger] transfers@[k]).table@ == tables@[k
                        % (tables@.len() as int)].name@,
            decreases tables@.len() - t,
        {
            let strategy = &mut strategies[t];
            let rep = transfer_table(
                &dst,
                &src_conn,
                &tables[t],
                strategy,
                batch_size as u64,
                s,
            );
            transfers.push(rep);
            proof {
                let l = tables@.len() as int;
                vstd::arithmetic::div_mod::lemma_fundamental_div_mod_converse(
                    (s - 1) * l + t,
                    l,
                    s - 1,
                    t as int,
                );
            }
            t += 1;
        }
        proof {
            assert((s - 1) * tables@.len() + tables@.len() == s * tables@.len())
                by (nonlinear_arith);
        }
        s += 1;
    }
    Ok(MergeSummary { tables, strategies, transfers })
}

} // verus!
