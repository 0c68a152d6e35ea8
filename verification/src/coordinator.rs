//! The dispatch coordinator's decision core. The surrounding runtime spawns
//! one worker per URL and delivers completion events in arbitrary order;
//! the decisions themselves — checkout, label, classify, release, count —
//! are the verified sequence below, applied once per completion event.

use crate::dlm_error::DlmError;
use crate::pool::{AggregateCounter, IndicatorPool};
use crate::progress_bars::ProgressHandle;
use crate::worker::{complete_task, outcome_for, start_task, DownloadTask, FetchSignal};
use vstd::prelude::*;

verus! {

/// Everything a finished run leaves behind: the per-task outcomes in
/// completion order, the settled aggregate counter, and the drained pool.
pub struct DispatchReport {
    pub outcomes: Vec<Result<u64, DlmError>>,
    pub aggregate: AggregateCounter,
    pub pool: IndicatorPool,
}

/// Dispatch a whole task set with at most `limit` transfers in flight —
/// enforced structurally by there being only `limit` handles to acquire.
/// Each completion event, success or failure alike, advances the aggregate
/// count by exactly one and returns its handle to the pool; afterwards the
/// pool is drained and every indicator finalized. `signals[i]` is the
/// transport's report for `tasks[i]`.
pub fn run_dispatch(tasks: &Vec<DownloadTask>, signals: &Vec<FetchSignal>, limit: usize) -> (r:
    DispatchReport)
    requires
        limit >= 1,
        tasks@.len() == signals@.len(),
        tasks@.len() <= u64::MAX,
    ensures
        r.outcomes@.len() == tasks@.len(),
        forall|i: int|
            0 <= i < r.outcomes@.len() ==> outcome_for(signals@[i], #[trigger] r.outcomes@[i]),
        r.aggregate.total == tasks@.len(),
        r.aggregate.completed == r.aggregate.total,
        r.aggregate.finalized,
        r.pool.n == limit,
        r.pool.available() == limit,
        forall|i: int|
            0 <= i < r.pool.free@.len() ==> (#[trigger] r.pool.free@[i]).finished
                && r.pool.free@[i].lane < limit,
{
    let total: usize = tasks.len();
    let mut pool = IndicatorPool::new(limit);
    let mut aggregate = AggregateCounter::new(total as u64);
    let mut outcomes: Vec<Result<u64, DlmError>> = Vec::new();
    let mut i: usize = 0;
    while i < total
        invariant
            limit >= 1,
            total == tasks@.len(),
            tasks@.len() == signals@.len(),
            tasks@.len() <= u64::MAX,
            i <= total,
            pool.wf(),
            pool.n == limit,
            pool.available() == limit,
            aggregate.wf(),
            !aggregate.finalized,
            aggregate.total == total,
            aggregate.completed == i,
            outcomes@.len() == i,
            forall|k: int|
                0 <= k < i ==> outcome_for(signals@[k], #[trigger] outcomes@[k]),
        decreases total - i,
    {
        let mut handle: ProgressHandle = pool.acquire();
        start_task(&mut handle, &tasks[i]);
        let out = complete_task(&mut handle, &tasks[i], &signals[i]);
        pool.release(handle);
        aggregate.on_complete();
        outcomes.push(out);
        i = i + 1;
    }
    pool.drain_and_finalize(&mut aggregate);
    DispatchReport { outcomes, aggregate, pool }
}

} // verus!
