//! A minimal dispatcher over a growable pool of long-lived execution
//! agents.
//!
//! The pool hands units of deferred work to idle agents through a lock-free
//! handoff protocol built from one atomic flag per slot and a futex-style
//! wait/notify primitive; no kernel mutex or condition variable is involved.
//! See [`pool::WorkerPool`] for the protocol itself and [`pool::AgentHost`]
//! for what the pool asks of its host environment.

use vstd::prelude::*;

pub mod pool;

verus! {

pub use crate::pool::AgentHost;
pub use crate::pool::WorkerPool;

use crate::pool::idle_slot;

/// Creates the worker pool that is meant to back the process-wide task
/// scheduler, eagerly provisioning `concurrency` agents, each with a stack
/// region of `stack_size` bytes and a thread-local-storage region of
/// `tls_size` bytes.  On success every slot is idle and empty.  Asking for
/// zero agents asks nothing of the host and always succeeds.
///
/// Registering the pool with the scheduler itself — handing the scheduler a
/// spawn hook that forwards each requested worker body to
/// [`WorkerPool::run`], and holding the one shared scheduler instance — is
/// the embedding application's step, not this core's: the pool never keeps
/// ambient global state of its own.
pub fn set_global_thread_pool<W, H: AgentHost>(
    concurrency: usize,
    stack_size: u32,
    tls_size: u32,
    host: &mut H,
) -> (r: Result<WorkerPool<W>, String>)
    ensures
        concurrency == 0 ==> r is Ok,
        r matches Ok(p) ==> {
            &&& p.wf()
            &&& p@.slots.len() == concurrency
            &&& forall|i: int| 0 <= i < concurrency ==> #[trigger] p@.slots[i] == idle_slot::<W>()
            &&& p@.stack_size == stack_size
            &&& p@.tls_size == tls_size
        },
{
    WorkerPool::new(concurrency, stack_size, tls_size, host)
}

} // verus!
