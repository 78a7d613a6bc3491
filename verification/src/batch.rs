//! Batch arithmetic: how many windows a table's rows fall into, and which
//! synthetic key each transferred row receives.

use vstd::prelude::*;

verus! {

/// How many batches a table of `row_count` rows needs at `batch_size` rows
/// per batch: none at all for an empty table, otherwise the exact ceiling.
pub open spec fn spec_batch_count(row_count: int, batch_size: int) -> int {
    if row_count <= 0 {
        0
    } else {
        (row_count - 1) / batch_size + 1
    }
}

/// The synthetic primary key of the `j`-th row transferred after the
/// counter stood at `seed`: the counter is incremented first, so the first
/// row receives `seed + 1` and the seed itself is never reused.
pub open spec fn synthetic_key(seed: int, j: int) -> int {
    seed + 1 + j
}

/// Batch count, executable.
pub fn batch_count(row_count: u64, batch_size: u64) -> (r: u64)
    requires
        batch_size >= 1,
    ensures
        r == spec_batch_count(row_count as int, batch_size as int),
        row_count == 0 ==> r == 0,
        row_count > 0 ==> r >= 1 && (r - 1) * batch_size < row_count && row_count <= r
            * batch_size,
{
    if row_count == 0 {
        0
    } else {
        let r = (row_count - 1) / batch_size + 1;
        proof {
            let rc = row_count as int;
            let bs = batch_size as int;
            let q = (rc - 1) / bs;
            vstd::arithmetic::div_mod::lemma_fundamental_div_mod(rc - 1, bs);
            vstd::arithmetic::div_mod::lemma_div_pos_is_pos(rc - 1, bs);
            vstd::arithmetic::div_mod::lemma_mod_bound(rc - 1, bs);
            assert(q * bs < rc <= (q + 1) * bs) by (nonlinear_arith)
                requires
                    rc - 1 == bs * q + (rc - 1) % bs,
                    0 <= (rc - 1) % bs < bs,
                    bs >= 1,
            ;
        }
        r
    }
}

/// Exactly `k` full batches plus one more for a remainder: with
/// `row_count == k * batch_size + rem` and `0 <= rem < batch_size`, the
/// batch count is `k` when the remainder is zero and `k + 1` otherwise; an
/// empty table gets no batch at all, and any non-empty table at least one.
pub proof fn lemma_batch_boundary(k: int, rem: int, batch_size: int)
    requires
        batch_size >= 1,
        k >= 0,
        0 <= rem < batch_size,
    ensures
        spec_batch_count(k * batch_size + rem, batch_size) == k + if rem > 0 {
            1int
        } else {
            0int
        },
{
    let rc = k * batch_size + rem;
    if rc <= 0 {
        assert(k * batch_size >= 0) by (nonlinear_arith)
            requires
                k >= 0,
                batch_size >= 1,
        ;
        assert(k == 0) by (nonlinear_arith)
            requires
                k >= 0,
                batch_size >= 1,
                k * batch_size + rem <= 0,
                rem >= 0,
        ;
    } else {
        if rem > 0 {
            assert((rc - 1) / batch_size == k) by (nonlinear_arith)
                requires
                    rc == k * batch_size + rem,
                    0 < rem < batch_size,
                    batch_size >= 1,
                    k >= 0,
            ;
        } else {
            assert(rc - 1 == (k - 1) * batch_size + (batch_size - 1)) by (nonlinear_arith)
                requires
                    rc == k * batch_size,
            ;
            assert((rc - 1) / batch_size == k - 1) by (nonlinear_arith)
                requires
                    rc - 1 == (k - 1) * batch_size + (batch_size - 1),
                    batch_size >= 1,
                    k >= 1,
            ;
        }
    }
}

/// Synthetic keys never collide: two distinct row positions always receive
/// distinct keys, every key exceeds the seed the counter started from, and
/// a key handed out after the counter has advanced by `m` rows is the same
/// key the original seed would have handed to row `m + j` — so the keys of
/// a whole run over any number of batches and sources are exactly
/// `seed + 1 .. seed + total`, pairwise distinct.
pub proof fn lemma_synthetic_keys_unique(seed: int, m: int, j1: int, j2: int)
    requires
        0 <= j1,
        0 <= j2,
    ensures
        j1 != j2 ==> synthetic_key(seed, j1) != synthetic_key(seed, j2),
        synthetic_key(seed, j1) > seed,
        synthetic_key(seed + m, j1) == synthetic_key(seed, m + j1),
{
}

/// The counter seed for a table with an integer key: zero when the
/// destination table holds no row, otherwise the key value found at the
/// destination's last row — by row order, not by key magnitude.
pub open spec fn spec_seed_counter(row_count: int, last_key: int) -> int {
    if row_count <= 0 {
        0
    } else {
        last_key
    }
}

/// Counter seed, executable.
pub fn seed_counter(row_count: i64, last_key: i64) -> (r: i64)
    ensures
        r == spec_seed_counter(row_count as int, last_key as int),
{
    if row_count <= 0 {
        0
    } else {
        last_key
    }
}

/// Counter seeding: for a destination table with no existing rows the first
/// transferred row receives key 1; for a destination whose last row holds
/// key `last_key`, the first transferred row receives `last_key + 1`.
pub proof fn lemma_counter_seeding(row_count: int, last_key: int)
    ensures
        row_count <= 0 ==> synthetic_key(spec_seed_counter(row_count, last_key), 0) == 1,
        row_count > 0 ==> synthetic_key(spec_seed_counter(row_count, last_key), 0) == last_key
            + 1,
{
}

} // verus!
