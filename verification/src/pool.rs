//! A growable pool of long-lived execution agents, together with the
//! lock-free handoff protocol that moves a unit of work from the single
//! orchestrating thread to an idle agent.
//!
//! Each agent owns one slot.  A slot carries a single-word availability flag
//! (`IDLE` means parked, any other value means working) and an optional
//! pending unit of work.  The flag is the sole synchronization variable: the
//! dispatcher stores the work, flips the flag to busy, and issues a
//! futex-style notify; the agent takes the work, runs it, restores the flag
//! to idle, and issues a futex-style wait that blocks only while the flag
//! still reads idle.
//!
//! The pool is agnostic to what a unit of work is: the type parameter `W`
//! stands for it, and a value of it is moved in at dispatch and moved out
//! exactly once by the agent that executes it.
//!
//! Bringing an agent to life (allocating its stack and thread-local-storage
//! regions and starting the host thread) and delivering the actual wake-up
//! are the host environment's business; the pool consumes them through the
//! [`AgentHost`] capability.  All dispatch and growth decisions must come
//! from a single orchestrating thread; that precondition is the caller's to
//! uphold.

use vstd::prelude::*;

verus! {

/// Flag value that marks a slot as idle/parked.  Any other value means the
/// slot's agent is busy (or is being handed work).
pub const IDLE: i32 = 1;

/// Flag value the dispatcher writes when it hands a slot new work.
pub const BUSY: i32 = 0;

/// Alignment of every stack region requested from the host.
pub const STACK_ALIGN: u32 = 1024 * 64;

/// Alignment of every thread-local-storage region requested from the host.
pub const TLS_ALIGN: u32 = 8;

/// The capability the pool consumes from its host environment.
///
/// The pool decides *when* a new agent is needed and *which* slot a unit of
/// work goes to; providing memory, starting an agent, and delivering a
/// wake-up are the host's business.  An embedding implements this trait over
/// whatever thread-equivalent mechanism it has.  No behaviour is assumed of
/// an implementation: every outcome of these calls is handled.
pub trait AgentHost {
    /// Provide a memory region of `size` bytes aligned to `align` and return
    /// its address.  Regions are never returned to the host: agents are
    /// permanent for the rest of the process.
    fn alloc_region(&mut self, size: u32, align: u32) -> Result<u32, String>;

    /// Start execution agent `id` with the given stack and thread-local
    /// storage regions.  The request is asynchronous: on success the host
    /// guarantees that the agent eventually enters its loop with `id` as the
    /// index of its slot.
    fn create_agent(&mut self, id: usize, stack_top: u32, tls: u32) -> Result<(), String>;

    /// Futex-style notify on slot `id`'s availability flag: wake at most one
    /// agent waiting on it.
    fn notify_agent(&mut self, id: usize);
}

/// What one agent slot looks like to a specification: whether its flag reads
/// idle, and the pending unit of work, if any.
pub struct SlotView<W> {
    pub idle: bool,
    pub work: Option<W>,
}

/// What the whole pool looks like to a specification: the slots in creation
/// order, and the configured region sizes.
pub struct PoolView<W> {
    pub slots: Seq<SlotView<W>>,
    pub stack_size: u32,
    pub tls_size: u32,
}

/// A freshly created or fully reclaimed slot: parked, nothing pending.
pub open spec fn idle_slot<W>() -> SlotView<W> {
    SlotView { idle: true, work: None }
}

/// A slot right after dispatch: working flag down, `w` pending.
pub open spec fn busy_with<W>(w: W) -> SlotView<W> {
    SlotView { idle: false, work: Some(w) }
}

/// Whether some slot of `s` is idle.
pub open spec fn has_idle_slot<W>(s: Seq<SlotView<W>>) -> bool {
    exists|i: int| 0 <= i < s.len() && s[i].idle
}

/// Whether `i` is the lowest-index idle slot of `s`: the one the dispatcher
/// selects.
pub open spec fn is_first_idle<W>(s: Seq<SlotView<W>>, i: int) -> bool {
    &&& 0 <= i < s.len()
    &&& s[i].idle
    &&& forall|j: int| 0 <= j < i ==> !(#[trigger] s[j]).idle
}

/// The index of the lowest-index idle slot of `s` (meaningful only when
/// `has_idle_slot(s)` holds).
pub open spec fn first_idle_index<W>(s: Seq<SlotView<W>>) -> int {
    choose|i: int| is_first_idle(s, i)
}

/// Futex semantics of the agent-side wait on a slot's flag: the call blocks
/// only if the flag still reads idle at the moment of the call; on any other
/// observed value it returns immediately.
pub open spec fn wait_would_block<W>(s: SlotView<W>) -> bool {
    s.idle
}

/// Below any idle slot there is a lowest-index idle slot.
proof fn lemma_least_idle_below<W>(s: Seq<SlotView<W>>, j: int)
    requires
        0 <= j < s.len(),
        s[j].idle,
    ensures
        exists|i: int| is_first_idle(s, i),
    decreases j,
{
    if forall|k: int| 0 <= k < j ==> !(#[trigger] s[k]).idle {
        assert(is_first_idle(s, j));
    } else {
        let k = choose|k: int| 0 <= k < j && s[k].idle;
        lemma_least_idle_below(s, k);
    }
}

/// Whenever any slot is idle, `first_idle_index` names a slot that really
/// is the lowest-index idle one — so the dispatch contracts, which describe
/// the selected slot through `first_idle_index`, can be used as stated.
pub proof fn lemma_first_idle_found<W>(s: Seq<SlotView<W>>)
    requires
        has_idle_slot(s),
    ensures
        is_first_idle(s, first_idle_index(s)),
{
    let j = choose|i: int| 0 <= i < s.len() && s[i].idle;
    lemma_least_idle_below(s, j);
}

/// Two slots cannot both be the lowest-index idle one.
pub proof fn lemma_first_idle_unique<W>(s: Seq<SlotView<W>>, i: int, j: int)
    requires
        is_first_idle(s, i),
        is_first_idle(s, j),
    ensures
        i == j,
{
    if i < j {
        assert(!s[i].idle);
    } else if j < i {
        assert(!s[j].idle);
    }
}

struct Worker<W> {
    available: i32,
    work_item: Option<W>,
}

impl<W> View for Worker<W> {
    type V = SlotView<W>;

    closed spec fn view(&self) -> SlotView<W> {
        SlotView { idle: self.available == IDLE, work: self.work_item }
    }
}

/// The pool: a growable, append-only arena of agent slots plus the region
/// sizes every new agent is provisioned with.  Slots are never removed, and
/// a slot's index is its agent's identifier forever.
pub struct WorkerPool<W> {
    workers: Vec<Worker<W>>,
    stack_size: u32,
    tls_size: u32,
}

impl<W> View for WorkerPool<W> {
    type V = PoolView<W>;

    closed spec fn view(&self) -> PoolView<W> {
        PoolView {
            slots: self.workers@.map_values(|w: Worker<W>| w@),
            stack_size: self.stack_size,
            tls_size: self.tls_size,
        }
    }
}

impl<W> WorkerPool<W> {
    /// The protocol invariant: a slot holds pending work only while its flag
    /// is busy.  Every constructor establishes this and every method
    /// preserves it.
    pub open spec fn wf(self) -> bool {
        forall|i: int|
            0 <= i < self@.slots.len() ==> ((#[trigger] self@.slots[i]).work is Some
                ==> !self@.slots[i].idle)
    }

    /// How many slots (agents) the pool has created so far.
    pub fn worker_count(&self) -> (n: usize)
        ensures
            n == self@.slots.len(),
    {
        self.workers.len()
    }

    /// Whether slot `id`'s flag currently reads idle.
    pub fn is_idle(&self, id: usize) -> (b: bool)
        requires
            id < self@.slots.len(),
        ensures
            b == self@.slots[id as int].idle,
    {
        self.workers[id].available == IDLE
    }

    /// Whether slot `id` currently holds a pending unit of work.
    pub fn has_pending_work(&self, id: usize) -> (b: bool)
        requires
            id < self@.slots.len(),
        ensures
            b == (self@.slots[id as int].work is Some),
    {
        self.workers[id].work_item.is_some()
    }

    /// Allocates the two memory regions a new agent needs and asks the host
    /// to start an agent whose identifier is the index the slot will get
    /// (the next sequential one).  The slot comes back parked and empty; the
    /// caller appends it.  The first allocation or creation error is
    /// returned and nothing is retried.
    fn spawn<H: AgentHost>(&self, host: &mut H) -> (r: Result<Worker<W>, String>)
        ensures
            r matches Ok(w) ==> w@ == idle_slot::<W>(),
    {
        let stack_top = host.alloc_region(self.stack_size, STACK_ALIGN)?;
        let tls = host.alloc_region(self.tls_size, TLS_ALIGN)?;
        host.create_agent(self.workers.len(), stack_top, tls)?;
        Ok(Worker { available: IDLE, work_item: None })
    }

    /// Creates a pool and eagerly provisions `initial` agents, each with a
    /// stack region of `stack_size` bytes and a thread-local-storage region
    /// of `tls_size` bytes.  On success every slot is idle and empty.  If
    /// the host refuses an allocation or a creation, the first such error is
    /// returned; agents created before the failure stay alive on the host's
    /// side (there is no rollback), but no pool value is handed back.
    /// Creating a pool of zero agents asks nothing of the host and always
    /// succeeds.
    pub fn new<H: AgentHost>(
        initial: usize,
        stack_size: u32,
        tls_size: u32,
        host: &mut H,
    ) -> (r: Result<WorkerPool<W>, String>)
        ensures
            initial == 0 ==> r is Ok,
            r matches Ok(p) ==> {
                &&& p.wf()
                &&& p@.slots.len() == initial
                &&& forall|i: int| 0 <= i < initial ==> #[trigger] p@.slots[i] == idle_slot::<W>()
                &&& p@.stack_size == stack_size
                &&& p@.tls_size == tls_size
            },
    {
        let mut pool = WorkerPool { workers: Vec::with_capacity(initial), stack_size, tls_size };
        let mut k: usize = 0;
        while k < initial
            invariant
                k <= initial,
                pool@.slots.len() == k,
                forall|i: int| 0 <= i < k ==> #[trigger] pool@.slots[i] == idle_slot::<W>(),
                pool@.stack_size == stack_size,
                pool@.tls_size == tls_size,
            decreases initial - k,
        {
            let w = pool.spawn(host)?;
            let ghost prev = pool@.slots;
            let ghost wv = w@;
            pool.workers.push(w);
            proof {
                assert(pool@.slots =~= prev.push(wv));
            }
            k = k + 1;
        }
        Ok(pool)
    }

    /// Finds the slot the next unit of work goes to: the lowest-index idle
    /// slot if one exists, in which case the pool is left untouched;
    /// otherwise one freshly provisioned agent is appended and its index
    /// (the old length) is returned.  Growth that the host refuses leaves
    /// the pool exactly as it was and hands the host's error back.
    ///
    /// Must only be called from the single orchestrating thread.
    pub fn worker<H: AgentHost>(&mut self, host: &mut H) -> (r: Result<usize, String>)
        requires
            old(self).wf(),
        ensures
            final(self).wf(),
            final(self)@.stack_size == old(self)@.stack_size,
            final(self)@.tls_size == old(self)@.tls_size,
            r matches Ok(i) ==> i < final(self)@.slots.len() && final(self)@.slots[i as int].idle,
            has_idle_slot(old(self)@.slots) ==> {
                &&& final(self)@ == old(self)@
                &&& r matches Ok(i) && is_first_idle(old(self)@.slots, i as int)
            },
            !has_idle_slot(old(self)@.slots) ==> match r {
                Ok(i) => {
                    &&& i == old(self)@.slots.len()
                    &&& final(self)@.slots == old(self)@.slots.push(idle_slot::<W>())
                },
                Err(_) => final(self)@ == old(self)@,
            },
    {
        let n = self.workers.len();
        let mut id: usize = 0;
        while id < n
            invariant
                n == self@.slots.len(),
                id <= n,
                *self == *old(self),
                self.wf(),
                forall|j: int| 0 <= j < id ==> !(#[trigger] self@.slots[j]).idle,
            decreases n - id,
        {
            if self.workers[id].available == IDLE {
                return Ok(id);
            }
            id = id + 1;
        }
        let w = self.spawn(host)?;
        let ghost prev = self@.slots;
        let ghost wv = w@;
        self.workers.push(w);
        proof {
            assert(self@.slots =~= prev.push(wv));
        }
        Ok(self.workers.len() - 1)
    }

    /// Hands the unit of work `f` to an idle agent: the lowest-index idle
    /// slot, or, when every slot is busy, one freshly created slot at the
    /// end of the table.  The work is stored, the slot's flag is flipped to
    /// busy, and the host is asked to notify the slot's agent — in that
    /// order, so that the wake-up can never outrun the work.  Exactly one
    /// slot changes; nothing blocks; nothing reports back when the work
    /// finishes.  An error comes only from growth the host refused, and
    /// leaves the pool exactly as it was.
    fn execute<H: AgentHost>(&mut self, host: &mut H, f: W) -> (r: Result<(), String>)
        requires
            old(self).wf(),
        ensures
            final(self).wf(),
            final(self)@.stack_size == old(self)@.stack_size,
            final(self)@.tls_size == old(self)@.tls_size,
            has_idle_slot(old(self)@.slots) ==> r is Ok && final(self)@.slots == old(
                self,
            )@.slots.update(first_idle_index(old(self)@.slots), busy_with(f)),
            !has_idle_slot(old(self)@.slots) ==> match r {
                Ok(_) => final(self)@.slots == old(self)@.slots.push(busy_with(f)),
                Err(_) => final(self)@ == old(self)@,
            },
            // the work lands only on a slot that was idle and empty: no
            // un-taken work is ever overwritten
            has_idle_slot(old(self)@.slots) ==> old(self)@.slots[first_idle_index(
                old(self)@.slots,
            )] == idle_slot::<W>(),
            // the slot table never shrinks and grows by at most one slot,
            // and only when no slot was idle
            old(self)@.slots.len() <= final(self)@.slots.len() <= old(self)@.slots.len() + 1,
            final(self)@.slots.len() > old(self)@.slots.len() ==> r is Ok && !has_idle_slot(
                old(self)@.slots,
            ),
    {
        let ghost before = self@.slots;
        let id = self.worker(host)?;
        // The slot handed out must still be idle: a busy one here would mean
        // a second thread is dispatching, which the protocol forbids.
        assert(self@.slots[id as int].idle);
        let ghost mid = self@.slots;
        let slot = &mut self.workers[id];
        slot.work_item = Some(f);
        slot.available = BUSY;
        proof {
            assert(self@.slots =~= mid.update(id as int, busy_with(f)));
            if has_idle_slot(before) {
                lemma_first_idle_found(before);
                lemma_first_idle_unique(before, id as int, first_idle_index(before));
                // idle, by selection; empty, by the protocol invariant
                assert(before[id as int].work is None);
            } else {
                assert(self@.slots =~= before.push(busy_with(f)));
            }
        }
        host.notify_agent(id);
        Ok(())
    }

    /// Dispatches the unit of work `f` onto some idle agent, creating one if
    /// every existing slot is busy, and returns without waiting: dispatch is
    /// fire-and-forget, and the work's own outcome is never observable
    /// through this call.  The selected slot is the lowest-index idle one
    /// (ties broken by creation order); when all are busy, exactly one new
    /// slot is appended and the work goes there.  An error comes only from
    /// growth the host refused, and leaves the pool exactly as it was.
    ///
    /// Must only be called from the single orchestrating thread.
    pub fn run<H: AgentHost>(&mut self, host: &mut H, f: W) -> (r: Result<(), String>)
        requires
            old(self).wf(),
        ensures
            final(self).wf(),
            final(self)@.stack_size == old(self)@.stack_size,
            final(self)@.tls_size == old(self)@.tls_size,
            has_idle_slot(old(self)@.slots) ==> r is Ok && final(self)@.slots == old(
                self,
            )@.slots.update(first_idle_index(old(self)@.slots), busy_with(f)),
            !has_idle_slot(old(self)@.slots) ==> match r {
                Ok(_) => final(self)@.slots == old(self)@.slots.push(busy_with(f)),
                Err(_) => final(self)@ == old(self)@,
            },
            // the work lands only on a slot that was idle and empty: no
            // un-taken work is ever overwritten
            has_idle_slot(old(self)@.slots) ==> old(self)@.slots[first_idle_index(
                old(self)@.slots,
            )] == idle_slot::<W>(),
            // the slot table never shrinks and grows by at most one slot,
            // and only when no slot was idle: a run of dispatches can never
            // create more slots than were simultaneously busy
            old(self)@.slots.len() <= final(self)@.slots.len() <= old(self)@.slots.len() + 1,
            final(self)@.slots.len() > old(self)@.slots.len() ==> r is Ok && !has_idle_slot(
                old(self)@.slots,
            ),
    {
        self.execute(host, f)
    }

    /// Agent side, step one of the loop: take ownership of slot `id`'s
    /// pending unit of work, if any, leaving the slot's reference to it
    /// empty.  The flag is not touched: the slot stays busy while the agent
    /// executes what it took, and only [`Self::restore_idle`] parks it
    /// again.  Only slot `id`'s own agent may call this for `id`.
    pub fn take_work(&mut self, id: usize) -> (w: Option<W>)
        requires
            old(self).wf(),
            id < old(self)@.slots.len(),
        ensures
            final(self).wf(),
            final(self)@.stack_size == old(self)@.stack_size,
            final(self)@.tls_size == old(self)@.tls_size,
            w == old(self)@.slots[id as int].work,
            final(self)@.slots == old(self)@.slots.update(
                id as int,
                (SlotView { idle: old(self)@.slots[id as int].idle, work: None::<W> }),
            ),
    {
        let ghost before = self@.slots;
        let slot = &mut self.workers[id];
        let w = slot.work_item.take();
        proof {
            assert(self@.slots =~= before.update(
                id as int,
                SlotView { idle: before[id as int].idle, work: None::<W> },
            ));
        }
        w
    }

    /// Agent side, step two of the loop: with the work taken out and
    /// executed to completion, set slot `id`'s flag back to idle.  The slot
    /// must hold no pending work — the protocol empties a slot before it is
    /// ever parked again.  The agent follows this with a futex-style wait on
    /// the flag (see [`Self::agent_parks`]).  Only slot `id`'s own agent may
    /// call this for `id`.
    pub fn restore_idle(&mut self, id: usize)
        requires
            old(self).wf(),
            id < old(self)@.slots.len(),
            old(self)@.slots[id as int].work is None,
        ensures
            final(self).wf(),
            final(self)@.stack_size == old(self)@.stack_size,
            final(self)@.tls_size == old(self)@.tls_size,
            final(self)@.slots == old(self)@.slots.update(id as int, idle_slot::<W>()),
    {
        let ghost before = self@.slots;
        let slot = &mut self.workers[id];
        slot.available = IDLE;
        proof {
            assert(self@.slots =~= before.update(id as int, idle_slot::<W>()));
        }
    }

    /// The agent-side wait decision for slot `id`: `true` exactly when a
    /// futex-style wait issued now, expecting the idle value, would block.
    /// Because the dispatcher flips the flag to busy before it notifies, a
    /// notify can never be missed: once work is pending the flag no longer
    /// reads idle and the wait returns immediately.
    pub fn agent_parks(&self, id: usize) -> (b: bool)
        requires
            id < self@.slots.len(),
        ensures
            b == wait_would_block(self@.slots[id as int]),
    {
        self.workers[id].available == IDLE
    }
}

/// At-most-one-assignment: in a well-formed pool a slot carries pending
/// work only while its flag is busy, so a second assignment can never land
/// on a slot whose first unit of work is still pending — the dispatcher
/// only ever selects slots whose flag reads idle.
pub proof fn lemma_pending_implies_busy<W>(p: WorkerPool<W>, i: int)
    requires
        p.wf(),
        0 <= i < p@.slots.len(),
        p@.slots[i].work is Some,
    ensures
        !p@.slots[i].idle,
{
}

/// No missed wakeup: the dispatcher stores the work and flips the flag to
/// busy before it notifies, so an agent that only reaches its wait call
/// after the notify was already delivered still cannot sleep through the
/// work — while work is pending the flag no longer reads idle, and a
/// futex-style wait that observes a non-idle flag returns immediately
/// instead of blocking.
pub proof fn lemma_no_missed_wakeup<W>(p: WorkerPool<W>, i: int)
    requires
        p.wf(),
        0 <= i < p@.slots.len(),
        p@.slots[i].work is Some,
    ensures
        !wait_would_block(p@.slots[i]),
{
}

} // verus!
