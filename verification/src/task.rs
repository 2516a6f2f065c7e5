//! The task directory: the per-task accounting records (status, syscall
//! invocation counters, first-scheduled timestamp) and the bookkeeping
//! operations on them that the trap machinery performs.

use vstd::prelude::*;

verus! {

/// Number of recognized syscall numbers; every per-task counter array has
/// exactly this many slots, one per syscall number.
pub const MAX_SYSCALL_NUM: usize = 500;

/// Lifecycle state of a task as kept in its directory record.
#[derive(Clone, Copy, PartialEq, Eq, Structural, Debug)]
pub enum TaskStatus {
    UnInit,
    Ready,
    Running,
    Exited,
}

/// One task's accounting record, owned by the task directory.
pub struct TaskControlBlock {
    /// Where the task stands in its lifecycle.
    pub status: TaskStatus,
    /// Slot `k` counts the invocations of syscall number `k` by the owning
    /// task since its creation.
    pub syscall_times: Vec<u32>,
    /// Clock reading, in microseconds since boot, when the task was first
    /// scheduled.
    pub first_scheduled_us: usize,
}

impl TaskControlBlock {
    /// The counter array has one slot per recognized syscall number.
    pub open spec fn wf(self) -> bool {
        self.syscall_times@.len() == MAX_SYSCALL_NUM
    }

    /// A fresh record: not yet initialized, no syscalls counted.
    pub fn new() -> (r: Self)
        ensures
            r.wf(),
            r.status == TaskStatus::UnInit,
            forall|k: int| 0 <= k < r.syscall_times@.len() ==> r.syscall_times@[k] == 0,
            r.first_scheduled_us == 0,
    {
        let mut syscall_times: Vec<u32> = Vec::new();
        let mut i: usize = 0;
        while i < MAX_SYSCALL_NUM
            invariant
                i <= MAX_SYSCALL_NUM,
                syscall_times@.len() == i,
                forall|k: int| 0 <= k < i ==> syscall_times@[k] == 0,
            decreases MAX_SYSCALL_NUM - i,
        {
            syscall_times.push(0);
            i += 1;
        }
        TaskControlBlock { status: TaskStatus::UnInit, syscall_times, first_scheduled_us: 0 }
    }
}

/// The task directory: every task's accounting record, plus the slot of the
/// task currently running. The records are mutated only through the
/// operations of this crate; the scheduler owns the choice of `current`.
pub struct TaskDirectory {
    pub tasks: Vec<TaskControlBlock>,
    pub current: usize,
}

impl TaskDirectory {
    /// A current task always exists, and every record has a full counter
    /// array.
    pub open spec fn wf(self) -> bool {
        &&& self.current < self.tasks@.len()
        &&& forall|i: int| 0 <= i < self.tasks@.len() ==> (#[trigger] self.tasks@[i]).wf()
    }

    /// The record of the task currently running.
    pub open spec fn current_record(self) -> TaskControlBlock {
        self.tasks@[self.current as int]
    }

    /// The trap machinery records one invocation of syscall number `id` by
    /// the current task: its counter slot `id` grows by one and nothing else
    /// changes.
    pub fn count_syscall(&mut self, id: usize)
        requires
            old(self).wf(),
            id < MAX_SYSCALL_NUM,
            old(self).current_record().syscall_times@[id as int] < u32::MAX,
        ensures
            final(self).wf(),
            final(self).current == old(self).current,
            final(self).tasks@.len() == old(self).tasks@.len(),
            final(self).current_record().syscall_times@ == old(self).current_record()
                .syscall_times@.update(
                id as int,
                (old(self).current_record().syscall_times@[id as int] + 1) as u32,
            ),
            final(self).current_record().status == old(self).current_record().status,
            final(self).current_record().first_scheduled_us == old(
                self,
            ).current_record().first_scheduled_us,
            forall|i: int|
                0 <= i < old(self).tasks@.len() && i != old(self).current as int
                    ==> final(self).tasks@[i] == old(self).tasks@[i],
    {
        let cur = self.current;
        let record = &mut self.tasks[cur];
        let count = record.syscall_times[id];
        record.syscall_times[id] = count + 1;
    }
}

/// Number of invocations of syscall number `k` in the history `h`: the
/// sequence of syscall numbers one task has invoked, oldest first.
pub open spec fn occurrences(h: Seq<usize>, k: usize) -> nat
    decreases h.len(),
{
    if h.len() == 0 {
        0
    } else {
        occurrences(h.drop_last(), k) + (if h.last() == k {
            1nat
        } else {
            0nat
        })
    }
}

/// The counter array `counters` records the history `h` exactly: slot `k`
/// holds the number of invocations of syscall number `k` in `h`.
pub open spec fn counts_history(counters: Seq<u32>, h: Seq<usize>) -> bool {
    forall|k: usize| k < counters.len() ==> counters[k as int] == #[trigger] occurrences(h, k)
}

/// A fresh, all-zero counter array records the empty history: no syscall
/// has been invoked yet.
pub proof fn lemma_zero_counters_count_empty_history(counters: Seq<u32>)
    requires
        forall|k: int| 0 <= k < counters.len() ==> counters[k] == 0,
    ensures
        counts_history(counters, Seq::<usize>::empty()),
{
}

/// Law: counting keeps the counters exact. If `counters` records the
/// history `h`, then `counters` with slot `id` grown by one — the change
/// `count_syscall(id)` makes — records `h` extended by one invocation of
/// syscall number `id`. So a counter array that starts all zero and grows
/// with every invocation holds, in each slot, the exact invocation count.
pub proof fn lemma_count_syscall_tracks_history(counters: Seq<u32>, h: Seq<usize>, id: usize)
    requires
        counts_history(counters, h),
        id < counters.len(),
        counters[id as int] < u32::MAX,
    ensures
        counts_history(counters.update(id as int, (counters[id as int] + 1) as u32), h.push(id)),
{
    let updated = counters.update(id as int, (counters[id as int] + 1) as u32);
    let extended = h.push(id);
    assert(extended.drop_last() =~= h);
    assert forall|k: usize| k < updated.len() implies updated[k as int] == occurrences(
        extended,
        k,
    ) by {
        assert(counters[k as int] == occurrences(h, k));
        assert(occurrences(extended, k) == occurrences(h, k) + (if extended.last() == k {
            1nat
        } else {
            0nat
        }));
    }
}

/// The step from `pre` to `post` leaves the record in slot `t` untouched.
/// Every syscall of this crate writes at most the current task's own
/// record, so any step taken while a different task is current preserves
/// slot `t`.
pub open spec fn preserves_record(pre: TaskDirectory, post: TaskDirectory, t: int) -> bool {
    &&& post.tasks@.len() == pre.tasks@.len()
    &&& post.tasks@[t] == pre.tasks@[t]
}

/// Law: once a task's record reads `Exited`, it reads `Exited` after any
/// run of directory steps none of which writes that record — in particular
/// after any syscalls performed by other tasks, so a later snapshot of the
/// slot still observes the exit.
pub proof fn lemma_exited_status_persists(trace: Seq<TaskDirectory>, t: int)
    requires
        trace.len() > 0,
        trace[0].tasks@[t].status == TaskStatus::Exited,
        forall|i: int|
            0 <= i < trace.len() - 1 ==> #[trigger] preserves_record(trace[i], trace[i + 1], t),
    ensures
        trace.last().tasks@[t].status == TaskStatus::Exited,
    decreases trace.len(),
{
    if trace.len() > 1 {
        let prefix = trace.drop_last();
        assert forall|i: int|
            0 <= i < prefix.len() - 1 implies #[trigger] preserves_record(
            prefix[i],
            prefix[i + 1],
            t,
        ) by {
            assert(preserves_record(trace[i], trace[i + 1], t));
        }
        lemma_exited_status_persists(prefix, t);
        let j = trace.len() - 2;
        assert(preserves_record(trace[j], trace[j + 1], t));
        assert(trace.last() == trace[j + 1]);
    }
}

} // verus!
