//! The process-control syscalls and the value types they hand back to the
//! caller.
//!
//! Each syscall takes the task directory and, where it needs the wall
//! clock, the clock's current reading in microseconds, and returns the
//! value the kernel writes back to the caller together with the success
//! code. The caller-memory write itself and the context switch that
//! follows `sys_exit` and `sys_yield` belong to the platform layer around
//! this crate.

use crate::task::{TaskControlBlock, TaskDirectory, TaskStatus};
use vstd::prelude::*;

verus! {

/// Microseconds in one second.
pub const USEC_PER_SEC: usize = 1_000_000;

/// Microseconds in one millisecond.
pub const USEC_PER_MSEC: usize = 1_000;

/// Wall-clock reading split into whole seconds and leftover microseconds.
#[derive(Clone, Copy, PartialEq, Eq, Structural, Debug)]
pub struct TimeVal {
    pub sec: usize,
    pub usec: usize,
}

/// Reads the wall clock for the caller. `now_us` is the clock's reading in
/// microseconds since boot; the timezone argument is accepted for interface
/// compatibility and ignored. Returns the decomposed reading and the
/// success code `0`.
pub fn sys_get_time(now_us: usize, _tz: usize) -> (r: (TimeVal, isize))
    ensures
        r.1 == 0,
        r.0.usec < USEC_PER_SEC,
        r.0.sec * USEC_PER_SEC + r.0.usec == now_us,
{
    let tv = TimeVal { sec: now_us / USEC_PER_SEC, usec: now_us % USEC_PER_SEC };
    (tv, 0)
}

/// Snapshot of one task's accounting state, copied out to the caller.
#[derive(Clone, Debug)]
pub struct TaskInfo {
    /// The task's lifecycle state at read time.
    pub status: TaskStatus,
    /// Slot `k` counts the invocations of syscall number `k` by the task
    /// since its creation.
    pub syscall_times: Vec<u32>,
    /// Elapsed whole milliseconds since the task was first scheduled.
    pub time: usize,
}

impl TaskInfo {
    /// An empty snapshot: uninitialized status, all counters zero, no
    /// elapsed time.
    pub fn new() -> (r: Self)
        ensures
            r.status == TaskStatus::UnInit,
            r.syscall_times@.len() == crate::task::MAX_SYSCALL_NUM,
            forall|k: int| 0 <= k < r.syscall_times@.len() ==> r.syscall_times@[k] == 0,
            r.time == 0,
    {
        let blank = TaskControlBlock::new();
        TaskInfo { status: blank.status, syscall_times: blank.syscall_times, time: 0 }
    }
}

/// Elapsed whole milliseconds between the clock reading `first_scheduled_us`
/// and the later reading `now_us`, clamped at zero if the clock reads
/// earlier than the recorded start (the crate's policy for a non-monotonic
/// clock: saturate, never wrap).
pub open spec fn elapsed_ms(first_scheduled_us: int, now_us: int) -> int {
    if now_us >= first_scheduled_us {
        (now_us - first_scheduled_us) / (USEC_PER_MSEC as int)
    } else {
        0
    }
}

/// Law: the `time` field of a diagnostics snapshot never decreases across
/// repeated reads by one task. While the recorded start stays fixed and the
/// clock is monotone, a later read derives an elapsed time at least as
/// large as an earlier one.
pub proof fn lemma_task_info_time_monotone(first_scheduled_us: int, now1_us: int, now2_us: int)
    requires
        now1_us <= now2_us,
    ensures
        elapsed_ms(first_scheduled_us, now1_us) <= elapsed_ms(first_scheduled_us, now2_us),
{
    if now1_us >= first_scheduled_us {
        vstd::arithmetic::div_mod::lemma_div_is_ordered(
            now1_us - first_scheduled_us,
            now2_us - first_scheduled_us,
            USEC_PER_MSEC as int,
        );
    } else if now2_us >= first_scheduled_us {
        vstd::arithmetic::div_mod::lemma_div_pos_is_pos(
            now2_us - first_scheduled_us,
            USEC_PER_MSEC as int,
        );
    }
}

/// The current task exits with `exit_code`: its directory record moves to
/// `Exited` and nothing else in the directory changes. Control never
/// returns to the exiting task; the scheduler around this crate hands the
/// processor to the next runnable task. The exit code is surfaced only for
/// observability and is not stored here.
pub fn sys_exit(dir: &mut TaskDirectory, _exit_code: i32)
    requires
        old(dir).wf(),
    ensures
        final(dir).wf(),
        final(dir).current == old(dir).current,
        final(dir).tasks@.len() == old(dir).tasks@.len(),
        final(dir).current_record().status == TaskStatus::Exited,
        final(dir).current_record().syscall_times@ == old(dir).current_record().syscall_times@,
        final(dir).current_record().first_scheduled_us == old(
            dir,
        ).current_record().first_scheduled_us,
        forall|i: int|
            0 <= i < old(dir).tasks@.len() && i != old(dir).current as int
                ==> final(dir).tasks@[i] == old(dir).tasks@[i],
{
    let cur = dir.current;
    let record = &mut dir.tasks[cur];
    record.status = TaskStatus::Exited;
}

/// The current task gives up the processor: its directory record moves to
/// `Ready` (never to `Exited`), nothing else in the directory changes, and
/// the call reports success. The scheduler around this crate dispatches the
/// next runnable task and later resumes this one right after the call.
pub fn sys_yield(dir: &mut TaskDirectory) -> (r: isize)
    requires
        old(dir).wf(),
    ensures
        r == 0,
        final(dir).wf(),
        final(dir).current == old(dir).current,
        final(dir).tasks@.len() == old(dir).tasks@.len(),
        final(dir).current_record().status == TaskStatus::Ready,
        final(dir).current_record().syscall_times@ == old(dir).current_record().syscall_times@,
        final(dir).current_record().first_scheduled_us == old(
            dir,
        ).current_record().first_scheduled_us,
        forall|i: int|
            0 <= i < old(dir).tasks@.len() && i != old(dir).current as int
                ==> final(dir).tasks@[i] == old(dir).tasks@[i],
{
    let cur = dir.current;
    let record = &mut dir.tasks[cur];
    record.status = TaskStatus::Ready;
    0
}

/// Law: a diagnostics snapshot reports exact invocation counts. If the
/// current task's counters record its invocation history `h` — which they
/// do when they started all zero and grew by one on every invocation — then
/// the snapshot `sys_task_info` assembles reads, in slot `k`, exactly the
/// number of invocations of syscall number `k` in `h`.
pub proof fn lemma_task_info_counts_exact(
    info: TaskInfo,
    dir: TaskDirectory,
    h: Seq<usize>,
    k: usize,
)
    requires
        info.syscall_times@ == dir.current_record().syscall_times@,
        crate::task::counts_history(dir.current_record().syscall_times@, h),
        k < info.syscall_times@.len(),
    ensures
        info.syscall_times@[k as int] == crate::task::occurrences(h, k),
{
}

/// Assembles the current task's diagnostics snapshot: its status and
/// counters copied from the directory, and the elapsed running time derived
/// from the clock reading `now_us`. Reports success.
pub fn sys_task_info(dir: &TaskDirectory, now_us: usize) -> (r: (TaskInfo, isize))
    requires
        dir.wf(),
    ensures
        r.1 == 0,
        r.0.status == dir.current_record().status,
        r.0.syscall_times@ == dir.current_record().syscall_times@,
        r.0.time == elapsed_ms(dir.current_record().first_scheduled_us as int, now_us as int),
{
    let record = &dir.tasks[dir.current];
    let syscall_times = record.syscall_times.clone();
    proof {
        assert(syscall_times@ =~= record.syscall_times@);
    }
    let first = record.first_scheduled_us;
    let time: usize = if now_us >= first {
        (now_us - first) / USEC_PER_MSEC
    } else {
        0
    };
    (TaskInfo { status: record.status, syscall_times, time }, 0)
}

} // verus!
