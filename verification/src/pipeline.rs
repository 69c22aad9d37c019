use crate::inserter::{BatchState, RowAction};
use crate::progress::{AggregatorState, ProgressMsg};
use crate::row::MeshcodeRow;
use crate::store::{MockStore, lemma_upsert_all_snoc, upsert_all};
use vstd::prelude::*;

verus! {

/// All the rows of a run, counted over its (root, level) pairs.
pub open spec fn total_rows(pairs: Seq<Seq<MeshcodeRow>>) -> int
    decreases pairs.len(),
{
    if pairs.len() == 0 {
        0
    } else {
        pairs.first().len() + total_rows(pairs.drop_first())
    }
}

pub proof fn lemma_total_rows_nonneg(pairs: Seq<Seq<MeshcodeRow>>)
    ensures
        total_rows(pairs) >= 0,
    decreases pairs.len(),
{
    if pairs.len() > 0 {
        lemma_total_rows_nonneg(pairs.drop_first());
    }
}

/// All the rows of a run, in production order.
pub open spec fn flatten_rows(pairs: Seq<Seq<MeshcodeRow>>) -> Seq<MeshcodeRow>
    decreases pairs.len(),
{
    if pairs.len() == 0 {
        Seq::empty()
    } else {
        pairs.first() + flatten_rows(pairs.drop_first())
    }
}

/// The contents of each pair's row vector.
pub open spec fn views_of(pairs: Seq<Vec<MeshcodeRow>>) -> Seq<Seq<MeshcodeRow>> {
    pairs.map_values(|v: Vec<MeshcodeRow>| v@)
}

/// The data phase, run to completion in a single task: announce each pair's
/// row count, hand each row to the worker's batching loop and upsert it,
/// report each committed batch, then the final remainder. This is the
/// reference semantics of the concurrent pipeline; the channel keeps every
/// row (`lemma_capacity_plus_one`), the workers split the rows among
/// themselves (`lemma_partition`) and the aggregator sums in any order
/// (`lemma_aggregation`), so an interleaved run accounts the same.
///
/// Completeness, composed: the rows reported committed equal the rows
/// announced — the aggregator ends with `completed == total`, both equal
/// the run's whole row count, and the store received exactly one upsert per
/// produced row, in production order.
pub fn run_data_phase(pair_rows: &Vec<Vec<MeshcodeRow>>, batch_size: u64, store: &mut MockStore) -> (r: (
    AggregatorState,
    BatchState,
))
    requires
        batch_size >= 1,
        total_rows(views_of(pair_rows@)) < u64::MAX,
    ensures
        r.0.total == total_rows(views_of(pair_rows@)),
        r.0.completed == r.0.total,
        r.1.received == r.0.total,
        r.1.advanced == r.1.received,
        final(store)@ == upsert_all(old(store)@, flatten_rows(views_of(pair_rows@))),
{
    let ghost all: Seq<Seq<MeshcodeRow>> = views_of(pair_rows@);
    let ghost mut processed: Seq<MeshcodeRow> = Seq::empty();
    let mut agg = AggregatorState::new();
    let mut state = BatchState::new(batch_size);
    let n_pairs = pair_rows.len();
    proof {
        assert(all.skip(0) =~= all);
        assert(processed + flatten_rows(all) =~= flatten_rows(all));
        assert(upsert_all(store@, processed) =~= store@);
    }
    for p in 0..n_pairs
        invariant
            all == views_of(pair_rows@),
            n_pairs == pair_rows@.len(),
            batch_size >= 1,
            total_rows(all) < u64::MAX,
            agg.total + total_rows(all.skip(p as int)) == total_rows(all),
            processed + flatten_rows(all.skip(p as int)) == flatten_rows(all),
            processed.len() == agg.total,
            store@ == upsert_all(old(store)@, processed),
            agg.completed == state.advanced,
            state.wf(),
            state.batch_size == batch_size,
            state.received == agg.total,
    {
        let rows = &pair_rows[p];
        proof {
            let tail = all.skip(p as int);
            assert(tail.first() == all[p as int]);
            assert(all[p as int] == rows@);
            assert(tail.drop_first() =~= all.skip(p as int + 1));
            lemma_total_rows_nonneg(all.skip(p as int + 1));
            assert(processed + (rows@ + flatten_rows(all.skip(p as int + 1))) =~= (processed
                + rows@) + flatten_rows(all.skip(p as int + 1)));
            assert(rows@.skip(0) =~= rows@);
        }
        agg.apply(ProgressMsg::Count(rows.len() as u64));
        let n_rows = rows.len();
        for i in 0..n_rows
            invariant
                n_rows == rows@.len(),
                agg.total + total_rows(all.skip(p as int + 1)) == total_rows(all),
                total_rows(all.skip(p as int + 1)) >= 0,
                total_rows(all) < u64::MAX,
                (processed + rows@.skip(i as int)) + flatten_rows(all.skip(p as int + 1))
                    == flatten_rows(all),
                processed.len() + (n_rows - i) == agg.total,
                store@ == upsert_all(old(store)@, processed),
                agg.completed == state.advanced,
                state.wf(),
                state.batch_size == batch_size,
                state.received + (n_rows - i) == agg.total,
        {
            let row = rows[i];
            store.upsert(row);
            proof {
                lemma_upsert_all_snoc(old(store)@, processed, row);
                assert(rows@.skip(i as int) =~= seq![row] + rows@.skip(i as int + 1));
                assert((processed.push(row) + rows@.skip(i as int + 1)) + flatten_rows(
                    all.skip(p as int + 1),
                ) =~= (processed + rows@.skip(i as int)) + flatten_rows(all.skip(p as int + 1)));
                processed = processed.push(row);
            }
            match state.step_row() {
                RowAction::CommitBatch(amount) => {
                    agg.apply(ProgressMsg::Advance(amount));
                },
                RowAction::Accumulate => {},
            }
        }
        proof {
            assert(rows@.skip(n_rows as int) =~= Seq::<MeshcodeRow>::empty());
            assert(processed + rows@.skip(n_rows as int) =~= processed);
        }
    }
    proof {
        assert(all.skip(n_pairs as int) =~= Seq::<Seq<MeshcodeRow>>::empty());
        assert(processed + flatten_rows(all.skip(n_pairs as int)) =~= processed);
    }
    let remainder = state.finish();
    agg.apply(ProgressMsg::Advance(remainder));
    (agg, state)
}

} // verus!
