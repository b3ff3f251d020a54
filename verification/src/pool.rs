//! The size of the worker pool.

use vstd::prelude::*;

verus! {

/// Calls `num_cpus::get`, which counts the logical processors that the
/// process may use. The count differs from machine to machine; the crate
/// documents that it is never below one, and this is all the contract says.
#[verifier::external_body]
pub(crate) fn logical_cpus() -> (count: usize)
    ensures
        count >= 1,
{
    num_cpus::get()
}

/// The number of workers of the pool: one per logical processor, and so at
/// least one.
pub fn worker_count() -> (workers: usize)
    ensures
        workers >= 1,
{
    pool_size(logical_cpus())
}

/// The size of a pool for a machine with the given number of processors: one
/// worker per processor, and a single worker where no processor is counted.
pub open spec fn pool_size_of(processors: int) -> int {
    if processors >= 1 {
        processors
    } else {
        1
    }
}

/// Sizes the pool for a given number of processors. A pool is never empty:
/// a count of zero still gives one worker.
pub fn pool_size(processors: usize) -> (workers: usize)
    ensures
        workers == pool_size_of(processors as int),
{
    if processors >= 1 {
        processors
    } else {
        1
    }
}

} // verus!
