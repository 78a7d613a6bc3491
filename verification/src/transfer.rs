//! The batch transfer engine: paginate one source table, rewrite its key
//! column when the strategy asks for it, and insert each window into the
//! destination as one multi-row statement.

use vstd::prelude::*;

use crate::batch::{batch_count, spec_batch_count, synthetic_key};
use crate::schema::{PrimaryKeyStrategy, TableDescriptor};
use crate::sql::{self, is_identifier};
use crate::sqlite;
use crate::values::SqlValue;

verus! {

proof fn lemma_row_of_pos(p: int, ncols: int, j: int)
    requires
        ncols >= 1,
        j * ncols <= p < (j + 1) * ncols,
    ensures
        p / ncols == j,
        p % ncols == p - j * ncols,
{
    assert((j + 1) * ncols == j * ncols + ncols) by (nonlinear_arith);
    vstd::arithmetic::div_mod::lemma_fundamental_div_mod_converse(p, ncols, j, p - j * ncols);
}

/// Build the flat parameter list of one batch window, in row-major order.
///
/// For `PassThrough` and `NoPrimaryKey` every value — key or not — is handed
/// on exactly as it was read.  For `IntegerSequence` the key column of the
/// `j`-th row of the window is replaced by the next counter value,
/// `synthetic_key(next_value, j)`, every other column is handed on
/// unchanged, and the counter advances by the window's row count.
pub fn build_insert_params(
    flat: Vec<SqlValue>,
    strategy: &mut PrimaryKeyStrategy,
    ncols: usize,
    nrows: usize,
) -> (out: Vec<SqlValue>)
    requires
        ncols >= 1,
        nrows <= i64::MAX,
        flat@.len() == nrows * ncols,
        *old(strategy) matches PrimaryKeyStrategy::IntegerSequence { column_index, next_value }
            ==> column_index < ncols && next_value + nrows <= i64::MAX,
    ensures
        out@.len() == flat@.len(),
        match *old(strategy) {
            PrimaryKeyStrategy::IntegerSequence { column_index, next_value } => {
                &&& *final(strategy) == (PrimaryKeyStrategy::IntegerSequence {
                    column_index,
                    next_value: (next_value + nrows) as i64,
                })
                &&& forall|p: int|
                    0 <= p < out@.len() ==> out@[p] == (if p % (ncols as int)
                        == column_index as int {
                        SqlValue::Integer(
                            synthetic_key(next_value as int, p / (ncols as int)) as i64,
                        )
                    } else {
                        flat@[p]
                    })
            },
            _ => {
                &&& *final(strategy) == *old(strategy)
                &&& out@ == flat@
            },
        },
{
    let (column_index, next_value): (usize, i64) = match &*strategy {
        PrimaryKeyStrategy::IntegerSequence { column_index, next_value } => (
            *column_index,
            *next_value,
        ),
        PrimaryKeyStrategy::PassThrough { .. } => {
            return flat;
        },
        PrimaryKeyStrategy::NoPrimaryKey => {
            return flat;
        },
    };
    let ghost orig = flat@;
    let mut out = flat;
    let mut j: usize = 0;
    while j < nrows
        invariant
            j <= nrows,
            ncols >= 1,
            nrows <= i64::MAX,
            column_index < ncols,
            next_value + nrows <= i64::MAX,
            out@.len() == orig.len(),
            orig.len() == nrows * ncols,
            forall|p: int|
                0 <= p < out@.len() ==> out@[p] == (if p % (ncols as int) == column_index as int
                    && p < j * ncols {
                    SqlValue::Integer(synthetic_key(next_value as int, p / (ncols as int)) as i64)
                } else {
                    orig[p]
                }),
        decreases nrows - j,
    {
        proof {
            assert((j + 1) * ncols <= nrows * ncols) by (nonlinear_arith)
                requires
                    j + 1 <= nrows,
                    ncols >= 1,
            ;
            assert(j * ncols + ncols == (j + 1) * ncols) by (nonlinear_arith);
        }
        let total = out.len();
        let pos = j * ncols + column_index;
        let key = next_value + 1 + (j as i64);
        proof {
            lemma_row_of_pos(pos as int, ncols as int, j as int);
        }
        out[pos] = SqlValue::Integer(key);
        proof {
            assert forall|p: int|
                0 <= p < out@.len() implies out@[p] == (if p % (ncols as int)
                == column_index as int && p < (j + 1) * ncols {
                SqlValue::Integer(synthetic_key(next_value as int, p / (ncols as int)) as i64)
            } else {
                orig[p]
            }) by {
                if p != pos && p % (ncols as int) == column_index as int && j * ncols <= p < (j
                    + 1) * ncols {
                    lemma_row_of_pos(p, ncols as int, j as int);
                    assert(p == j * ncols + (p % (ncols as int)));
                }
            }
        }
        j += 1;
    }
    *strategy = PrimaryKeyStrategy::IntegerSequence {
        column_index,
        next_value: next_value + (nrows as i64),
    };
    out
}

/// Pass-through fidelity, in row-and-column terms: in the parameter list
/// built for one window (the `forall` below is exactly what
/// `build_insert_params` ensures for an `IntegerSequence` strategy), column
/// `i` of row `j` carries the fetched value unchanged unless `i` is the
/// keyed column, which carries that row's synthetic key.  With a
/// `PassThrough` or `NoPrimaryKey` strategy `build_insert_params` states
/// directly that the whole window is handed on unchanged.
pub proof fn lemma_pass_through_fidelity(
    flat: Seq<SqlValue>,
    out: Seq<SqlValue>,
    ncols: int,
    nrows: int,
    column_index: int,
    next_value: int,
    j: int,
    i: int,
)
    requires
        ncols >= 1,
        flat.len() == nrows * ncols,
        out.len() == flat.len(),
        0 <= j < nrows,
        0 <= i < ncols,
        forall|p: int|
            0 <= p < out.len() ==> out[p] == (if p % ncols == column_index {
                SqlValue::Integer(synthetic_key(next_value, p / ncols) as i64)
            } else {
                flat[p]
            }),
    ensures
        i != column_index ==> out[j * ncols + i] == flat[j * ncols + i],
        i == column_index ==> out[j * ncols + i] == SqlValue::Integer(
            synthetic_key(next_value, j) as i64,
        ),
{
    assert(0 <= j * ncols && j * ncols + ncols == (j + 1) * ncols && (j + 1) * ncols <= nrows
        * ncols) by (nonlinear_arith)
        requires
            0 <= j,
            j + 1 <= nrows,
            ncols >= 1,
    ;
    lemma_row_of_pos(j * ncols + i, ncols, j);
}

/// What one batch did: its window and whether its insert succeeded.
pub struct BatchRecord {
    /// Row offset of the window in the source table.
    pub offset: u64,
    /// How many rows the window actually held.
    pub rows: usize,
    /// Whether the single insert statement for the window succeeded.
    pub ok: bool,
    /// Whether the window's rows consumed counter values (they do exactly
    /// when the window was built under an `IntegerSequence` strategy, even
    /// if its insert then failed).
    pub keyed: bool,
    /// The driver error of a failed read or insert, kept for the failure
    /// record; a batch skipped by the counter-headroom guard carries none.
    pub error: Option<rusqlite::Error>,
}

/// Rows of the succeeded records among `batches`.
pub open spec fn ok_rows(batches: Seq<BatchRecord>) -> int
    decreases batches.len(),
{
    if batches.len() == 0 {
        0
    } else {
        ok_rows(batches.drop_last()) + if batches.last().ok {
            batches.last().rows as int
        } else {
            0
        }
    }
}

/// Rows of the failed records among `batches`.
pub open spec fn failed_rows(batches: Seq<BatchRecord>) -> int
    decreases batches.len(),
{
    if batches.len() == 0 {
        0
    } else {
        failed_rows(batches.drop_last()) + if batches.last().ok {
            0
        } else {
            batches.last().rows as int
        }
    }
}

/// Rows of the records whose window consumed counter values.
pub open spec fn keyed_rows(batches: Seq<BatchRecord>) -> int
    decreases batches.len(),
{
    if batches.len() == 0 {
        0
    } else {
        keyed_rows(batches.drop_last()) + if batches.last().keyed {
            batches.last().rows as int
        } else {
            0
        }
    }
}

/// The outcome of transferring one table from one source: the per-batch
/// records and their accumulated counts, so a caller can assert on outcomes
/// directly instead of reading logs.
pub struct TransferReport {
    pub table: String,
    pub source_index: usize,
    /// The source table's row count as counted at the start (zero when even
    /// the count query failed).
    pub row_count: u64,
    pub batches: Vec<BatchRecord>,
    pub batches_ok: u64,
    pub batches_failed: u64,
    /// Rows inserted by succeeded batches.
    pub rows_ok: u64,
    /// Rows abandoned with failed batches.
    pub rows_failed: u64,
    /// Rows that consumed a counter value (counters advance when the window
    /// is built, whether or not its insert then succeeds).
    pub rows_keyed: u64,
}

/// Everything `transfer_table` promises of the report it returns: the row
/// counters are exactly the sums over the per-batch records, so the run's
/// accounting can be read off either way.
pub open spec fn report_wf(rep: TransferReport, batch_size: int) -> bool {
    &&& rep.batches@.len() == spec_batch_count(rep.row_count as int, batch_size)
    &&& rep.batches_ok + rep.batches_failed == rep.batches@.len()
    &&& forall|b: int|
        0 <= b < rep.batches@.len() ==> (#[trigger] rep.batches@[b]).offset == b * batch_size
            && rep.batches@[b].rows <= batch_size && (rep.batches@[b].ok
            ==> rep.batches@[b].error is None)
    &&& rep.rows_ok == ok_rows(rep.batches@)
    &&& rep.rows_failed == failed_rows(rep.batches@)
    &&& rep.rows_keyed == keyed_rows(rep.batches@)
    &&& rep.rows_ok + rep.rows_failed <= rep.batches@.len() * batch_size
    &&& rep.rows_keyed <= rep.rows_ok + rep.rows_failed
}

/// Transfer every row of one table from `src` into `dst`.
///
/// The table is paginated into `spec_batch_count` windows of at most
/// `batch_size` rows; each window becomes one multi-row insert.  A window
/// whose read or insert fails is abandoned — recorded, never retried — and
/// the transfer continues with the next one.  An `IntegerSequence` counter
/// leaves the call advanced by exactly the rows that were built into
/// statements (`rows_keyed`), so a later source continues above it.
pub fn transfer_table(
    dst: &rusqlite::Connection,
    src: &rusqlite::Connection,
    table: &TableDescriptor,
    strategy: &mut PrimaryKeyStrategy,
    batch_size: u64,
    source_index: usize,
) -> (rep: TransferReport)
    requires
        1 <= batch_size <= i64::MAX,
        table.columns@.len() >= 1,
        is_identifier(table.name@),
        *old(strategy) matches PrimaryKeyStrategy::IntegerSequence { column_index, .. }
            ==> column_index < table.columns@.len(),
    ensures
        report_wf(rep, batch_size as int),
        rep.source_index == source_index,
        rep.table@ == table.name@,
        match *old(strategy) {
            PrimaryKeyStrategy::IntegerSequence { column_index, next_value } => {
                &&& next_value + rep.rows_keyed <= i64::MAX
                &&& *final(strategy) == (PrimaryKeyStrategy::IntegerSequence {
                    column_index,
                    next_value: (next_value + rep.rows_keyed) as i64,
                })
            },
            _ => *final(strategy) == *old(strategy),
        },
{
    let ncols = table.columns.len();
    let count_sql = sql::count_sql(table.name.as_str());
    let row_count: u64 = match sqlite::query_count(src, count_sql.as_str()) {
        Ok(c) => if c < 0 {
            0
        } else {
            c as u64
        },
        Err(_) => 0,
    };
    let nb = batch_count(row_count, batch_size);
    let select_sql = sql::select_batch_sql(table.name.as_str());
    let mut rep = TransferReport {
        table: table.name.clone(),
        source_index,
        row_count,
        batches: Vec::new(),
        batches_ok: 0,
        batches_failed: 0,
        rows_ok: 0,
        rows_failed: 0,
        rows_keyed: 0,
    };
    let mut i: u64 = 0;
    while i < nb
        invariant
            1 <= batch_size <= i64::MAX,
            ncols == table.columns@.len(),
            ncols >= 1,
            i <= nb,
            nb == spec_batch_count(row_count as int, batch_size as int),
            nb >= 1 ==> (nb - 1) * batch_size < row_count,
            row_count <= i64::MAX,
            rep.row_count == row_count,
            rep.source_index == source_index,
            rep.table@ == table.name@,
            rep.batches@.len() == i,
            rep.batches_ok + rep.batches_failed == i,
            select_sql@ == sql::select_batch_sql_spec(table.name@),
            is_identifier(table.name@),
            forall|b: int|
                0 <= b < rep.batches@.len() ==> (#[trigger] rep.batches@[b]).offset == b
                    * batch_size && rep.batches@[b].rows <= batch_size && (rep.batches@[b].ok
                    ==> rep.batches@[b].error is None),
            rep.rows_ok + rep.rows_failed <= i * batch_size,
            rep.rows_keyed <= rep.rows_ok + rep.rows_failed,
            rep.rows_ok == ok_rows(rep.batches@),
            rep.rows_failed == failed_rows(rep.batches@),
            rep.rows_keyed == keyed_rows(rep.batches@),
            match *old(strategy) {
                PrimaryKeyStrategy::IntegerSequence { column_index, next_value } => {
                    &&& column_index < ncols
                    &&& next_value + rep.rows_keyed <= i64::MAX
                    &&& *strategy == (PrimaryKeyStrategy::IntegerSequence {
                        column_index,
                        next_value: (next_value + rep.rows_keyed) as i64,
                    })
                },
                _ => *strategy == *old(strategy),
            },
        decreases nb - i,
    {
        proof {
            assert(i * batch_size <= (nb - 1) * batch_size && (i + 1) * batch_size == i
                * batch_size + batch_size && (i + 1) * batch_size <= nb * batch_size && nb
                * batch_size < row_count + batch_size) by (nonlinear_arith)
                requires
                    i < nb,
                    1 <= batch_size,
                    (nb - 1) * batch_size < row_count,
            ;
        }
        let offset: u64 = i * batch_size;
        proof {
            assert(select_sql@ == sql::select_batch_sql_spec(table.name@) && is_identifier(
                table.name@,
            ));
        }
        let ghost prev = rep.batches@;
        let fetched = sqlite::query_batch_raw(
            src,
            select_sql.as_str(),
            batch_size as i64,
            offset as i64,
            ncols,
        );
        match fetched {
            Err(e) => {
                rep.batches.push(
                    BatchRecord { offset, rows: 0, ok: false, keyed: false, error: Some(e) },
                );
                rep.batches_failed += 1;
                proof {
                    assert(rep.batches@.drop_last() =~= prev);
                }
            },
            Ok(flat) => {
                let nrows = flat.len() / ncols;
                proof {
                    let len = flat@.len() as int;
                    let nc = ncols as int;
                    vstd::arithmetic::div_mod::lemma_fundamental_div_mod(len, nc);
                    vstd::arithmetic::mul::lemma_mul_is_commutative(nc, len / nc);
                    assert(nrows * ncols == flat@.len());
                    assert(nrows <= batch_size) by (nonlinear_arith)
                        requires
                            nrows * ncols <= batch_size * ncols,
                            ncols >= 1,
                            nrows >= 0,
                            batch_size >= 0,
                    ;
                }
                if nrows == 0 {
                    rep.batches.push(
                        BatchRecord { offset, rows: 0, ok: true, keyed: false, error: None },
                    );
                    rep.batches_ok += 1;
                    proof {
                        assert(rep.batches@.drop_last() =~= prev);
                    }
                } else {
                    let keyed: bool = match &*strategy {
                        PrimaryKeyStrategy::IntegerSequence { .. } => true,
                        _ => false,
                    };
                    let counter_safe: bool = match &*strategy {
                        PrimaryKeyStrategy::IntegerSequence { next_value, .. } => *next_value
                            <= i64::MAX - (nrows as i64),
                        _ => true,
                    };
                    if !counter_safe {
                        rep.batches.push(
                            BatchRecord { offset, rows: nrows, ok: false, keyed: false, error: None },
                        );
                        rep.batches_failed += 1;
                        rep.rows_failed += nrows as u64;
                        proof {
                            assert(rep.batches@.drop_last() =~= prev);
                        }
                    } else {
                        let params = build_insert_params(flat, strategy, ncols, nrows);
                        if keyed {
                            rep.rows_keyed += nrows as u64;
                        }
                        let insert_sql = sql::insert_sql(table.name.as_str(), ncols, nrows);
                        match sqlite::execute_with_params(dst, insert_sql.as_str(), &params) {
                            Ok(_) => {
                                rep.batches.push(
                                    BatchRecord { offset, rows: nrows, ok: true, keyed, error: None },
                                );
                                rep.batches_ok += 1;
                                rep.rows_ok += nrows as u64;
                            },
                            Err(e) => {
                                rep.batches.push(
                                    BatchRecord {
                                        offset,
                                        rows: nrows,
                                        ok: false,
                                        keyed,
                                        error: Some(e),
                                    },
                                );
                                rep.batches_failed += 1;
                                rep.rows_failed += nrows as u64;
                            },
                        }
                        proof {
                            assert(rep.batches@.drop_last() =~= prev);
                        }
                    }
                }
            },
        }
        i += 1;
    }
    rep
}

} // verus!
