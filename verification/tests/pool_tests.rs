use worker_pool::pool::AgentHost;
use worker_pool::pool::WorkerPool;
use worker_pool::pool::STACK_ALIGN;
use worker_pool::pool::TLS_ALIGN;
use worker_pool::set_global_thread_pool;

/// A host for the test harness: hands out fake region addresses, records
/// every agent-creation and notify request, and can be told to start
/// failing after a given number of allocations or creations.
struct MockHost {
    next_addr: u32,
    allocs: Vec<(u32, u32)>,
    created: Vec<usize>,
    notified: Vec<usize>,
    fail_allocs_after: Option<usize>,
    fail_creates_after: Option<usize>,
}

impl MockHost {
    fn new() -> MockHost {
        MockHost {
            next_addr: 0x1000,
            allocs: Vec::new(),
            created: Vec::new(),
            notified: Vec::new(),
            fail_allocs_after: None,
            fail_creates_after: None,
        }
    }
}

impl AgentHost for MockHost {
    fn alloc_region(&mut self, size: u32, align: u32) -> Result<u32, String> {
        if let Some(n) = self.fail_allocs_after {
            if self.allocs.len() >= n {
                return Err(String::from("allocation failed"));
            }
        }
        let addr = self.next_addr;
        self.next_addr = self.next_addr.wrapping_add(0x10_0000);
        self.allocs.push((size, align));
        Ok(addr)
    }

    fn create_agent(&mut self, id: usize, _stack_top: u32, _tls: u32) -> Result<(), String> {
        if let Some(n) = self.fail_creates_after {
            if self.created.len() >= n {
                return Err(String::from("agent creation failed"));
            }
        }
        self.created.push(id);
        Ok(())
    }

    fn notify_agent(&mut self, id: usize) {
        self.notified.push(id);
    }
}

/// The protocol invariant, observed from outside: a slot with pending work
/// never has an idle flag.
fn assert_pending_only_while_busy<W>(pool: &WorkerPool<W>) {
    let n: usize = pool.worker_count();
    let mut id: usize = 0;
    while id < n {
        if pool.has_pending_work(id) {
            assert!(!pool.is_idle(id));
        }
        id += 1;
    }
}

#[test]
fn new_creates_idle_agents() {
    let mut host = MockHost::new();
    let pool = WorkerPool::<usize>::new(2, 65536, 1024, &mut host).unwrap();
    assert_eq!(pool.worker_count(), 2);
    assert!(pool.is_idle(0));
    assert!(pool.is_idle(1));
    assert!(!pool.has_pending_work(0));
    assert!(!pool.has_pending_work(1));
    // one agent asked of the host per slot, identified by its index
    assert_eq!(host.created, vec![0, 1]);
    // a stack region and a tls region per agent, with the fixed alignments
    assert_eq!(
        host.allocs,
        vec![(65536, STACK_ALIGN), (1024, TLS_ALIGN), (65536, STACK_ALIGN), (1024, TLS_ALIGN)]
    );
    assert!(host.notified.is_empty());
}

#[test]
fn new_with_zero_agents() {
    let mut host = MockHost::new();
    let mut pool = WorkerPool::<usize>::new(0, 4096, 64, &mut host).unwrap();
    assert_eq!(pool.worker_count(), 0);
    assert!(host.created.is_empty());
    assert!(host.allocs.is_empty());
    // the first dispatch onto an empty pool must grow it
    pool.run(&mut host, 9).unwrap();
    assert_eq!(pool.worker_count(), 1);
    assert_eq!(pool.take_work(0), Some(9));
}

#[test]
fn set_global_thread_pool_with_zero_agents() {
    let mut host = MockHost::new();
    // even a host that refuses everything cannot fail a zero-agent pool:
    // nothing is asked of it
    host.fail_allocs_after = Some(0);
    host.fail_creates_after = Some(0);
    let pool = set_global_thread_pool::<usize, MockHost>(0, 8192, 128, &mut host).unwrap();
    assert_eq!(pool.worker_count(), 0);
}

#[test]
fn new_propagates_creation_failure() {
    let mut host = MockHost::new();
    host.fail_creates_after = Some(1);
    let r = WorkerPool::<usize>::new(3, 4096, 64, &mut host);
    assert_eq!(r.err(), Some(String::from("agent creation failed")));
    // the first agent was created before the failure and stays alive
    assert_eq!(host.created, vec![0]);
}

#[test]
fn new_propagates_allocation_failure() {
    let mut host = MockHost::new();
    host.fail_allocs_after = Some(1);
    let r = WorkerPool::<usize>::new(1, 4096, 64, &mut host);
    assert_eq!(r.err(), Some(String::from("allocation failed")));
    assert!(host.created.is_empty());
}

#[test]
fn dispatch_selects_lowest_idle() {
    let mut host = MockHost::new();
    let mut pool = WorkerPool::<usize>::new(4, 4096, 64, &mut host).unwrap();
    // make the pool look like [busy, idle, idle, busy]
    for t in 0..4 {
        pool.run(&mut host, t).unwrap();
    }
    assert_eq!(pool.take_work(1), Some(1));
    pool.restore_idle(1);
    assert_eq!(pool.take_work(2), Some(2));
    pool.restore_idle(2);
    assert!(!pool.is_idle(0));
    assert!(pool.is_idle(1));
    assert!(pool.is_idle(2));
    assert!(!pool.is_idle(3));

    pool.run(&mut host, 7).unwrap();
    // index 1, the lowest idle index, was selected — not index 2
    assert!(!pool.is_idle(1));
    assert!(pool.is_idle(2));
    assert_eq!(pool.worker_count(), 4);
    assert_eq!(host.notified.last(), Some(&1));
    assert_eq!(pool.take_work(1), Some(7));
    assert_pending_only_while_busy(&pool);
}

#[test]
fn growth_on_saturation() {
    let mut host = MockHost::new();
    let mut pool = WorkerPool::<usize>::new(2, 4096, 64, &mut host).unwrap();
    pool.run(&mut host, 10).unwrap();
    pool.run(&mut host, 11).unwrap();
    assert_eq!(pool.worker_count(), 2);
    // every slot busy: the next dispatch creates exactly one slot, index 2
    pool.run(&mut host, 12).unwrap();
    assert_eq!(pool.worker_count(), 3);
    assert!(!pool.is_idle(2));
    assert_eq!(host.created, vec![0, 1, 2]);
    assert_eq!(host.notified, vec![0, 1, 2]);
    assert_eq!(pool.take_work(2), Some(12));
    assert_pending_only_while_busy(&pool);
}

#[test]
fn refused_growth_leaves_pool_unchanged() {
    let mut host = MockHost::new();
    let mut pool = WorkerPool::<usize>::new(2, 4096, 64, &mut host).unwrap();
    pool.run(&mut host, 10).unwrap();
    pool.run(&mut host, 11).unwrap();
    host.fail_creates_after = Some(2);
    let r = pool.run(&mut host, 12);
    assert_eq!(r.err(), Some(String::from("agent creation failed")));
    assert_eq!(pool.worker_count(), 2);
    assert_eq!(pool.take_work(0), Some(10));
    assert_eq!(pool.take_work(1), Some(11));
}

#[test]
fn no_missed_wakeup() {
    let mut host = MockHost::new();
    let mut pool = WorkerPool::<usize>::new(1, 4096, 64, &mut host).unwrap();
    // the producer stores the work, flips the flag and notifies before the
    // agent has reached its wait call
    pool.run(&mut host, 42).unwrap();
    assert_eq!(host.notified, vec![0]);
    // the agent arrives late: a wait on the flag would not block, so it
    // proceeds, observes the work and executes it
    assert!(!pool.agent_parks(0));
    assert_eq!(pool.take_work(0), Some(42));
    pool.restore_idle(0);
    // only now, with the flag back to idle, does the wait block again
    assert!(pool.agent_parks(0));
}

#[test]
fn idle_restoration_after_execution() {
    let mut host = MockHost::new();
    let mut pool = WorkerPool::<usize>::new(1, 4096, 64, &mut host).unwrap();
    pool.run(&mut host, 5).unwrap();
    assert!(!pool.is_idle(0));
    assert_eq!(pool.take_work(0), Some(5));
    pool.restore_idle(0);
    assert!(pool.is_idle(0));
    assert!(!pool.has_pending_work(0));
    // the slot is reused by the next dispatch
    pool.run(&mut host, 6).unwrap();
    assert_eq!(pool.worker_count(), 1);
    assert_eq!(pool.take_work(0), Some(6));
}

#[test]
fn taking_from_an_idle_slot_yields_nothing() {
    let mut host = MockHost::new();
    let mut pool = WorkerPool::<usize>::new(1, 4096, 64, &mut host).unwrap();
    assert_eq!(pool.take_work(0), None);
    assert!(pool.is_idle(0));
}

#[test]
fn end_to_end_all_dispatches_outstanding() {
    let mut host = MockHost::new();
    let mut pool = WorkerPool::<usize>::new(2, 4096, 64, &mut host).unwrap();
    let mut counters: [u32; 5] = [0; 5];
    // five counter-increment work items dispatched in sequence while no
    // agent makes progress: the pool must grow, one slot per dispatch
    // beyond the two initial agents
    for t in 0..5 {
        pool.run(&mut host, t).unwrap();
        assert_pending_only_while_busy(&pool);
    }
    let n: usize = pool.worker_count();
    assert!(2 <= n && n <= 5);
    assert_eq!(n, 5);
    // every agent now runs its loop once
    for id in 0..n {
        if let Some(t) = pool.take_work(id) {
            counters[t] += 1;
        }
        pool.restore_idle(id);
    }
    assert_eq!(counters, [1, 1, 1, 1, 1]);
    for id in 0..n {
        assert!(pool.is_idle(id));
        assert!(!pool.has_pending_work(id));
    }
}

#[test]
fn end_to_end_with_prompt_agents() {
    let mut host = MockHost::new();
    let mut pool = WorkerPool::<usize>::new(2, 4096, 64, &mut host).unwrap();
    let mut counters: [u32; 5] = [0; 5];
    // the same five work items, but each agent finishes before the next
    // dispatch: no slot is ever missing, so the pool never grows
    for t in 0..5 {
        pool.run(&mut host, t).unwrap();
        assert_pending_only_while_busy(&pool);
        let id: usize = *host.notified.last().unwrap();
        if let Some(u) = pool.take_work(id) {
            counters[u] += 1;
        }
        pool.restore_idle(id);
    }
    assert_eq!(pool.worker_count(), 2);
    assert_eq!(counters, [1, 1, 1, 1, 1]);
}

#[test]
fn set_global_thread_pool_provisions_the_pool() {
    let mut host = MockHost::new();
    let pool = set_global_thread_pool::<usize, MockHost>(3, 8192, 128, &mut host).unwrap();
    assert_eq!(pool.worker_count(), 3);
    for id in 0..3 {
        assert!(pool.is_idle(id));
        assert!(!pool.has_pending_work(id));
    }
    assert_eq!(host.created, vec![0, 1, 2]);
}

#[test]
fn set_global_thread_pool_reports_host_failure() {
    let mut host = MockHost::new();
    host.fail_creates_after = Some(0);
    let r = set_global_thread_pool::<usize, MockHost>(1, 8192, 128, &mut host);
    assert_eq!(r.err(), Some(String::from("agent creation failed")));
}
