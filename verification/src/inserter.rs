use crate::row::MeshcodeRow;
use vstd::prelude::*;

verus! {

/// `ceil_div(n, t)`: how many transactions a worker that received `n` rows
/// commits with rows in them, at batch size `t`.
pub open spec fn ceil_div(n: int, t: int) -> int
    recommends
        t >= 1,
{
    (n + t - 1) / t
}

/// Rounding up by adding `t - 1` agrees with "one extra commit exactly when
/// a partial batch remains".
pub proof fn lemma_ceil_div(n: int, t: int)
    requires
        n >= 0,
        t >= 1,
    ensures
        ceil_div(n, t) == n / t + if n % t == 0 {
            0int
        } else {
            1int
        },
{
    let q = n / t;
    let r = n % t;
    vstd::arithmetic::div_mod::lemma_fundamental_div_mod(n, t);
    vstd::arithmetic::div_mod::lemma_mod_bound(n, t);
    if r == 0 {
        assert(n + t - 1 == q * t + (t - 1)) by (nonlinear_arith)
            requires
                n == t * q + r,
                r == 0,
        ;
        vstd::arithmetic::div_mod::lemma_fundamental_div_mod_converse(n + t - 1, t, q, t - 1);
    } else {
        assert(n + t - 1 == (q + 1) * t + (r - 1)) by (nonlinear_arith)
            requires
                n == t * q + r,
        ;
        vstd::arithmetic::div_mod::lemma_fundamental_div_mod_converse(n + t - 1, t, q + 1, r - 1);
    }
}

/// What a worker does with the row it just received.
#[derive(Debug, Clone, Copy, PartialEq, Eq, Structural)]
pub enum RowAction {
    /// The row joined the open transaction; nothing else to do.
    Accumulate,
    /// The batch is full: commit the open transaction, emit `Advance` with
    /// the given amount, and open a new transaction.
    CommitBatch(u64),
}

/// The batching state of one inserter worker.
///
/// A worker owns one connection and one open transaction at a time. It
/// counts the rows it received; every `batch_size` rows it commits and
/// reports progress, and when the channel closes it commits the final,
/// possibly partial, transaction and reports the remainder.
#[derive(Debug, Clone, Copy, PartialEq, Eq, Structural)]
pub struct BatchState {
    pub batch_size: u64,
    pub received: u64,
    pub batch_fill: u64,
    pub advanced: u64,
    pub full_commits: u64,
}

impl BatchState {
    /// Internal invariant: the rows received are exactly the rows already
    /// reported as progress plus the fill of the open transaction, and every
    /// reported row went through a full batch.
    pub open spec fn wf(self) -> bool {
        &&& self.batch_size >= 1
        &&& self.batch_fill < self.batch_size
        &&& self.received == self.advanced + self.batch_fill
        &&& self.advanced == self.full_commits * self.batch_size
    }

    pub fn new(batch_size: u64) -> (s: BatchState)
        requires
            batch_size >= 1,
        ensures
            s.wf(),
            s.batch_size == batch_size,
            s.received == 0,
            s.batch_fill == 0,
            s.advanced == 0,
            s.full_commits == 0,
    {
        BatchState { batch_size, received: 0, batch_fill: 0, advanced: 0, full_commits: 0 }
    }

    /// Account for one received row, and decide whether its batch is now
    /// full and must be committed.
    pub fn step_row(&mut self) -> (action: RowAction)
        requires
            old(self).wf(),
            old(self).received < u64::MAX,
        ensures
            final(self).wf(),
            final(self).batch_size == old(self).batch_size,
            final(self).received == old(self).received + 1,
            action == (if old(self).batch_fill + 1 == old(self).batch_size {
                RowAction::CommitBatch(old(self).batch_size)
            } else {
                RowAction::Accumulate
            }),
            action is CommitBatch ==> {
                &&& final(self).batch_fill == 0
                &&& final(self).advanced == old(self).advanced + old(self).batch_size
                &&& final(self).full_commits == old(self).full_commits + 1
            },
            action is Accumulate ==> {
                &&& final(self).batch_fill == old(self).batch_fill + 1
                &&& final(self).advanced == old(self).advanced
                &&& final(self).full_commits == old(self).full_commits
            },
    {
        proof {
            assert(self.full_commits <= self.advanced) by (nonlinear_arith)
                requires
                    self.advanced == self.full_commits * self.batch_size,
                    self.batch_size >= 1,
                    self.full_commits >= 0,
            ;
            assert((self.full_commits + 1) * self.batch_size == self.full_commits
                * self.batch_size + self.batch_size) by (nonlinear_arith);
        }
        self.received = self.received + 1;
        if self.batch_fill + 1 == self.batch_size {
            self.batch_fill = 0;
            self.advanced = self.advanced + self.batch_size;
            self.full_commits = self.full_commits + 1;
            RowAction::CommitBatch(self.batch_size)
        } else {
            self.batch_fill = self.batch_fill + 1;
            RowAction::Accumulate
        }
    }

    /// The channel is drained and closed: commit the final transaction and
    /// report the remaining rows. Returns the amount of the final `Advance`
    /// event; afterwards every received row has been reported.
    pub fn finish(&mut self) -> (remainder: u64)
        requires
            old(self).wf(),
        ensures
            remainder == old(self).batch_fill,
            remainder < old(self).batch_size,
            final(self).batch_size == old(self).batch_size,
            final(self).received == old(self).received,
            final(self).batch_fill == 0,
            final(self).advanced == final(self).received,
            final(self).full_commits == old(self).full_commits,
    {
        let r = self.batch_fill;
        self.batch_fill = 0;
        self.advanced = self.advanced + r;
        r
    }

    /// How many of this worker's commits held rows, the final one included.
    pub open spec fn spec_commits_with_rows(self, remainder: u64) -> int {
        self.full_commits + if remainder > 0 {
            1int
        } else {
            0int
        }
    }

    pub fn commits_with_rows(&self, remainder: u64) -> (n: u64)
        requires
            self.full_commits < u64::MAX,
        ensures
            n == self.spec_commits_with_rows(remainder),
    {
        if remainder > 0 {
            self.full_commits + 1
        } else {
            self.full_commits
        }
    }
}

/// The batch accounting of one worker, whole: a worker that receives `rows`
/// and then sees the channel close reports exactly `rows.len()` rows as
/// progress, and commits `ceil(len / batch_size)` transactions that held
/// rows.
///
/// This is the single-worker loop run to completion; the concurrent pool
/// runs one such loop per worker, each on its own connection.
pub fn drain_rows(rows: &Vec<MeshcodeRow>, batch_size: u64) -> (r: (BatchState, u64))
    requires
        batch_size >= 1,
        rows@.len() < u64::MAX,
    ensures
        r.0.received == rows@.len(),
        r.0.advanced == rows@.len(),
        r.1 < batch_size,
        r.0.advanced == r.0.full_commits * batch_size + r.1,
        r.0.spec_commits_with_rows(r.1) == ceil_div(rows@.len() as int, batch_size as int),
{
    let mut state = BatchState::new(batch_size);
    let n = rows.len();
    for k in 0..n
        invariant
            n == rows@.len(),
            n < u64::MAX,
            state.wf(),
            state.batch_size == batch_size,
            state.received == k,
    {
        let _ = state.step_row();
    }
    let remainder = state.finish();
    proof {
        let n_int = rows@.len() as int;
        let t = batch_size as int;
        vstd::arithmetic::div_mod::lemma_fundamental_div_mod_converse(
            n_int,
            t,
            state.full_commits as int,
            remainder as int,
        );
        lemma_ceil_div(n_int, t);
    }
    (state, remainder)
}

} // verus!
