//! Sizing of the shared worker-thread pool.

use vstd::prelude::*;

verus! {

/// Clamps the machine's available parallelism into the fixed band the worker
/// pool is sized to, so the pool neither under-parallelizes on small machines
/// nor oversubscribes on large ones.
pub fn worker_thread_count(available: usize) -> (r: usize)
    ensures
        4 <= r <= 16,
        r == if available < 4 {
            4int
        } else if available > 16 {
            16int
        } else {
            available as int
        },
{
    if available < 4 {
        4
    } else if available > 16 {
        16
    } else {
        available
    }
}

} // verus!
