use os3::process::{sys_exit, sys_get_time, sys_task_info, sys_yield, TaskInfo};
use os3::task::{TaskControlBlock, TaskDirectory, TaskStatus, MAX_SYSCALL_NUM};

const SYSCALL_YIELD: usize = 124;
const SYSCALL_GET_TIME: usize = 169;

fn directory(n_tasks: usize) -> TaskDirectory {
    let mut tasks = Vec::new();
    for _ in 0..n_tasks {
        let mut tcb = TaskControlBlock::new();
        tcb.status = TaskStatus::Ready;
        tasks.push(tcb);
    }
    tasks[0].status = TaskStatus::Running;
    TaskDirectory { tasks, current: 0 }
}

#[test]
fn get_time_decomposes_reading() {
    let (tv, ret) = sys_get_time(2_000_500, 0);
    assert_eq!(ret, 0);
    assert_eq!(tv.sec, 2);
    assert_eq!(tv.usec, 500);
}

#[test]
fn get_time_at_boot_is_zero() {
    let (tv, ret) = sys_get_time(0, 0);
    assert_eq!(ret, 0);
    assert_eq!(tv.sec, 0);
    assert_eq!(tv.usec, 0);
}

#[test]
fn get_time_reconstructs_the_reading() {
    for &us in &[0usize, 1, 999_999, 1_000_000, 1_000_001, 123_456_789] {
        let (tv, ret) = sys_get_time(us, 42);
        assert_eq!(ret, 0);
        assert!(tv.usec < 1_000_000);
        assert_eq!(tv.sec * 1_000_000 + tv.usec, us);
    }
}

#[test]
fn yield_returns_zero_and_marks_ready() {
    let mut dir = directory(2);
    let ret = sys_yield(&mut dir);
    assert_eq!(ret, 0);
    assert_eq!(dir.tasks[0].status, TaskStatus::Ready);
    assert_ne!(dir.tasks[0].status, TaskStatus::Exited);
    assert_eq!(dir.tasks[1].status, TaskStatus::Ready);
}

#[test]
fn exit_is_observed_from_another_task() {
    let mut dir = directory(2);
    sys_exit(&mut dir, 7);
    assert_eq!(dir.tasks[0].status, TaskStatus::Exited);
    // The scheduler hands the processor to the other task; the exited
    // task's record is untouched by that task's own syscalls.
    dir.tasks[1].status = TaskStatus::Running;
    dir.current = 1;
    let ret = sys_yield(&mut dir);
    assert_eq!(ret, 0);
    let (info, ret) = sys_task_info(&dir, 10_000);
    assert_eq!(ret, 0);
    assert_eq!(dir.tasks[0].status, TaskStatus::Exited);
    assert_eq!(info.status, TaskStatus::Ready);
}

#[test]
fn task_info_elapsed_milliseconds() {
    let mut dir = directory(1);
    dir.tasks[0].first_scheduled_us = 1_000_000;
    let (info, ret) = sys_task_info(&dir, 4_500_000);
    assert_eq!(ret, 0);
    assert_eq!(info.time, 3500);
}

#[test]
fn task_info_time_is_monotone() {
    let mut dir = directory(1);
    dir.tasks[0].first_scheduled_us = 250_000;
    let mut previous = 0usize;
    for &now in &[250_000usize, 250_999, 251_000, 1_000_000, 60_000_000] {
        let (info, ret) = sys_task_info(&dir, now);
        assert_eq!(ret, 0);
        assert!(info.time >= previous);
        previous = info.time;
    }
}

#[test]
fn task_info_clamps_backward_clock() {
    let mut dir = directory(1);
    dir.tasks[0].first_scheduled_us = 5_000_000;
    let (info, ret) = sys_task_info(&dir, 4_000_000);
    assert_eq!(ret, 0);
    assert_eq!(info.time, 0);
}

#[test]
fn syscall_counters_are_exact() {
    let mut dir = directory(1);
    for _ in 0..3 {
        dir.count_syscall(SYSCALL_YIELD);
        sys_yield(&mut dir);
        dir.tasks[0].status = TaskStatus::Running;
    }
    dir.count_syscall(SYSCALL_GET_TIME);
    sys_get_time(777, 0);
    let (info, ret) = sys_task_info(&dir, 0);
    assert_eq!(ret, 0);
    assert_eq!(info.syscall_times[SYSCALL_YIELD], 3);
    assert_eq!(info.syscall_times[SYSCALL_GET_TIME], 1);
    for k in 0..MAX_SYSCALL_NUM {
        if k != SYSCALL_YIELD && k != SYSCALL_GET_TIME {
            assert_eq!(info.syscall_times[k], 0);
        }
    }
}

#[test]
fn task_info_copies_status_and_counters() {
    let mut dir = directory(1);
    dir.tasks[0].status = TaskStatus::Running;
    dir.count_syscall(0);
    dir.count_syscall(0);
    let (info, ret) = sys_task_info(&dir, 123);
    assert_eq!(ret, 0);
    assert_eq!(info.status, TaskStatus::Running);
    assert_eq!(info.syscall_times.len(), MAX_SYSCALL_NUM);
    assert_eq!(info.syscall_times[0], 2);
    // The snapshot is a copy: counting afterwards does not change it.
    dir.count_syscall(0);
    assert_eq!(info.syscall_times[0], 2);
}

#[test]
fn new_task_info_is_empty() {
    let info = TaskInfo::new();
    assert_eq!(info.status, TaskStatus::UnInit);
    assert_eq!(info.time, 0);
    assert_eq!(info.syscall_times.len(), MAX_SYSCALL_NUM);
    assert!(info.syscall_times.iter().all(|&c| c == 0));
}

#[test]
fn new_task_record_is_empty() {
    let tcb = TaskControlBlock::new();
    assert_eq!(tcb.status, TaskStatus::UnInit);
    assert_eq!(tcb.first_scheduled_us, 0);
    assert_eq!(tcb.syscall_times.len(), MAX_SYSCALL_NUM);
    assert!(tcb.syscall_times.iter().all(|&c| c == 0));
}
