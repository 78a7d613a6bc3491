//! The schema model: per-column metadata as `PRAGMA table_info` reports it,
//! and the classification of a table's primary key.

use vstd::prelude::*;

verus! {

/// One column of a table, as `PRAGMA table_info` reports it.  Read once from
/// the destination schema and never mutated afterwards.
pub struct ColumnDescriptor {
    /// Ordinal position of the column.
    pub cid: i64,
    /// Column name.
    pub name: String,
    /// Declared type name, verbatim.
    pub decl_type: String,
    /// Non-zero when the column is declared `NOT NULL`.
    pub notnull: i64,
    /// Whether the column declares a default value.
    pub has_default: bool,
    /// Zero for an ordinary column; `k` when the column is the `k`-th part
    /// of the declared primary key.
    pub pk: i64,
}

/// A table name with its ordered column sequence.
pub struct TableDescriptor {
    pub name: String,
    pub columns: Vec<ColumnDescriptor>,
}

/// The per-table key policy, produced once against the destination and
/// mutated only through its counter while one table's rows are transferred.
pub enum PrimaryKeyStrategy {
    /// Single integer primary key: each transferred row receives the next
    /// counter value, strictly increasing within a run.
    IntegerSequence { column_index: usize, next_value: i64 },
    /// Single non-integer primary key: source values are copied verbatim.
    PassThrough { column_index: usize },
    /// No declared primary key: all columns are copied verbatim.
    NoPrimaryKey,
}

/// Whether a column is flagged as (part of) the declared primary key.
pub open spec fn key_flagged(c: ColumnDescriptor) -> bool {
    c.pk >= 1
}

/// No column of the table is flagged as a primary key.
pub open spec fn no_key(cols: Seq<ColumnDescriptor>) -> bool {
    forall|k: int| 0 <= k < cols.len() ==> !key_flagged(cols[k])
}

/// The column at `i` is the only flagged one.
pub open spec fn sole_key_at(cols: Seq<ColumnDescriptor>, i: int) -> bool {
    &&& 0 <= i < cols.len()
    &&& key_flagged(cols[i])
    &&& forall|k: int| 0 <= k < cols.len() && k != i ==> !key_flagged(cols[k])
}

/// Two or more columns are flagged: a composite primary key.
pub open spec fn composite_key(cols: Seq<ColumnDescriptor>) -> bool {
    exists|i: int, j: int|
        0 <= i < j < cols.len() && key_flagged(cols[i]) && key_flagged(cols[j])
}

/// Whether a declared type name counts as an integer type.  The match is
/// case-sensitive and exact: `INTEGER` or `INT`, nothing else.
pub open spec fn is_integer_decl(t: Seq<char>) -> bool {
    t == "INTEGER"@ || t == "INT"@
}

/// What the classifier found in a column sequence.
#[derive(Debug, PartialEq, Eq, Structural)]
pub enum KeyClass {
    /// No column is flagged as a primary key.
    NoKey,
    /// Two or more columns are flagged: unsupported.
    Composite,
    /// Exactly one flagged column, of a non-integer declared type.
    NonIntegerKey { column_index: usize },
    /// Exactly one flagged column, declared `INTEGER` or `INT`.
    IntegerKey { column_index: usize },
}

/// Classify a table's primary key from its column sequence alone.
pub fn classify_columns(cols: &Vec<ColumnDescriptor>) -> (r: KeyClass)
    ensures
        (r is NoKey) <==> no_key(cols@),
        (r is Composite) <==> composite_key(cols@),
        r matches KeyClass::NonIntegerKey { column_index } ==> sole_key_at(
            cols@,
            column_index as int,
        ) && !is_integer_decl(cols@[column_index as int].decl_type@),
        r matches KeyClass::IntegerKey { column_index } ==> sole_key_at(cols@, column_index as int)
            && is_integer_decl(cols@[column_index as int].decl_type@),
{
    let mut first: Option<usize> = None;
    let mut second_seen: bool = false;
    let mut k: usize = 0;
    while k < cols.len()
        invariant
            k <= cols.len(),
            first is None ==> forall|q: int| 0 <= q < k ==> !key_flagged(cols@[q]),
            first matches Some(i) ==> i < k && key_flagged(cols@[i as int]) && forall|q: int|
                0 <= q < i ==> !key_flagged(cols@[q]),
            second_seen <==> exists|i: int, j: int|
                0 <= i < j < k && key_flagged(cols@[i]) && key_flagged(cols@[j]),
        decreases cols.len() - k,
    {
        if cols[k].pk >= 1 {
            if first.is_none() {
                first = Some(k);
            } else {
                second_seen = true;
            }
        }
        k += 1;
    }
    match first {
        None => KeyClass::NoKey,
        Some(i) => {
            if second_seen {
                KeyClass::Composite
            } else {
                let t = &cols[i].decl_type;
                if *t == "INTEGER".to_owned() || *t == "INT".to_owned() {
                    KeyClass::IntegerKey { column_index: i }
                } else {
                    KeyClass::NonIntegerKey { column_index: i }
                }
            }
        },
    }
}

} // verus!
