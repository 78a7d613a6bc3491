use vstd::prelude::*;

verus! {

/// The two caller-supplied inputs: a pattern naming the source files and
/// the destination file path.
pub struct Args {
    /// The source database file path; callers may expand a glob pattern
    /// into the ordered source list before the merge.
    pub src: String,
    /// The destination database file path.
    pub dst: String,
}

} // verus!
