use crate::errors::PipelineError;
use vstd::prelude::*;

verus! {

/// The data phase succeeded only when the generator, every inserter worker
/// and the aggregator all finished without error.
pub open spec fn spec_data_phase_ok(
    generator: Result<(), PipelineError>,
    workers: Seq<Result<(), PipelineError>>,
    aggregator: Result<(), PipelineError>,
) -> bool {
    &&& generator is Ok
    &&& forall|i: int| 0 <= i < workers.len() ==> (#[trigger] workers[i]) is Ok
    &&& aggregator is Ok
}

/// Join the inserter pool: find the first worker that failed, if any.
///
/// The coordinator surfaces that worker's error and tears the siblings
/// down; `None` is the success path of the pool.
pub fn first_failure(results: &Vec<Result<(), PipelineError>>) -> (r: Option<usize>)
    ensures
        r is None <==> (forall|i: int|
            0 <= i < results@.len() ==> (#[trigger] results@[i]) is Ok),
        r matches Some(i) ==> {
            &&& i < results@.len()
            &&& results@[i as int] is Err
            &&& forall|j: int| 0 <= j < i ==> (#[trigger] results@[j]) is Ok
        },
{
    let n = results.len();
    for k in 0..n
        invariant
            n == results@.len(),
            forall|j: int| 0 <= j < k ==> (#[trigger] results@[j]) is Ok,
    {
        if results[k].is_err() {
            return Some(k);
        }
    }
    None
}

/// Decide the whole run from the three phase outcomes: the run succeeds
/// exactly when all three phases did.
pub fn data_phase_ok(
    generator: &Result<(), PipelineError>,
    workers: &Vec<Result<(), PipelineError>>,
    aggregator: &Result<(), PipelineError>,
) -> (r: bool)
    ensures
        r == spec_data_phase_ok(*generator, workers@, *aggregator),
{
    let worker_failure = first_failure(workers);
    generator.is_ok() && worker_failure.is_none() && aggregator.is_ok()
}

/// Whether the metadata phase may run: only after the data phase fully
/// succeeded, and only if not explicitly skipped.
pub fn should_run_metadata(data_ok: bool, skip_metadata: bool) -> (r: bool)
    ensures
        r == (data_ok && !skip_metadata),
{
    data_ok && !skip_metadata
}

/// Fail-fast propagation: a single worker whose persistence call failed
/// fails the whole data phase, so the run is reported failed and the
/// metadata phase never executes, whatever the other phases did and whether
/// or not metadata was skipped. (Any other worker error propagates the same
/// way: only `workers[i] is Err` is used below.)
pub proof fn lemma_fail_fast(
    generator: Result<(), PipelineError>,
    workers: Seq<Result<(), PipelineError>>,
    aggregator: Result<(), PipelineError>,
    i: int,
    skip_metadata: bool,
)
    requires
        0 <= i < workers.len(),
        workers[i] matches Err(e) && e.is_persistence(),
    ensures
        !spec_data_phase_ok(generator, workers, aggregator),
        !(spec_data_phase_ok(generator, workers, aggregator) && !skip_metadata),
{
}

} // verus!
