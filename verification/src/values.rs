use vstd::prelude::*;

verus! {

/// One dynamically typed scalar carried from a source row to the destination.
///
/// The merge only ever builds `Integer` values itself (for rewritten primary
/// keys); every other value is moved along unchanged.  A floating-point
/// `Real` is carried as the driver's own value, untouched: the merge never
/// reads or computes with one.
pub enum SqlValue {
    Null,
    Integer(i64),
    Text(String),
    Blob(Vec<u8>),
    Real(rusqlite::types::Value),
}

impl SqlValue {
    pub open spec fn spec_as_integer(self) -> Option<i64> {
        match self {
            SqlValue::Integer(v) => Some(v),
            _ => None,
        }
    }

    /// The integer held by this value, if it is an `Integer`.
    pub fn as_integer(&self) -> (r: Option<i64>)
        ensures
            r == self.spec_as_integer(),
    {
        match self {
            SqlValue::Integer(v) => Some(*v),
            _ => None,
        }
    }

    /// Whether this value is the SQL `NULL`.
    pub fn is_null(&self) -> (r: bool)
        ensures
            r == (self is Null),
    {
        match self {
            SqlValue::Null => true,
            _ => false,
        }
    }

    /// The text held by this value, if it is a `Text`.
    pub fn as_text(&self) -> (r: Option<&String>)
        ensures
            match self {
                SqlValue::Text(s) => r == Some(s),
                _ => r is None,
            },
    {
        match self {
            SqlValue::Text(s) => Some(s),
            _ => None,
        }
    }
}

} // verus!
