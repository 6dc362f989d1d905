use prettier_process::stats::statistics;
use prettier_process::struct_proc::{ProcessInfo, ProcessState};

fn record(pid: usize, state: ProcessState, vm_size: usize, vm_rss: usize) -> ProcessInfo {
    ProcessInfo {
        pid,
        name: format!("p{}", pid),
        state,
        ppid: 1,
        uid: 0,
        gid: 0,
        threads: 1,
        vm_size,
        vm_rss,
        cmdline: String::new(),
    }
}

fn fleet() -> Vec<ProcessInfo> {
    vec![
        record(1, ProcessState::Sleeping, 2048, 512),
        record(2, ProcessState::Running, 100, 10),
        record(3, ProcessState::Unknown, 7, 3),
        record(4, ProcessState::Sleeping, 4096, 1024),
        record(5, ProcessState::Zombie, 0, 0),
        record(6, ProcessState::Idle, 0, 0),
        record(7, ProcessState::DiskSleep, 50, 5),
        record(8, ProcessState::Stopped, 60, 6),
        record(9, ProcessState::Unknown, 1, 1),
    ]
}

#[test]
fn statistics_of_no_record() {
    let stats = statistics(&Vec::new());
    assert_eq!(stats.total, 0);
    assert_eq!(stats.running, 0);
    assert_eq!(stats.sleeping, 0);
    assert_eq!(stats.disk_sleep, 0);
    assert_eq!(stats.zombie, 0);
    assert_eq!(stats.stopped, 0);
    assert_eq!(stats.idle, 0);
    assert_eq!(stats.total_rss_kb, 0);
    assert_eq!(stats.total_virtual_kb, 0);
}

#[test]
fn statistics_count_each_record_once() {
    let stats = statistics(&fleet());
    assert_eq!(stats.total, 9);
    assert_eq!(stats.running, 1);
    assert_eq!(stats.sleeping, 2);
    assert_eq!(stats.disk_sleep, 1);
    assert_eq!(stats.zombie, 1);
    assert_eq!(stats.stopped, 1);
    assert_eq!(stats.idle, 1);
    assert_eq!(stats.total_rss_kb, 512 + 10 + 3 + 1024 + 5 + 6 + 1);
    assert_eq!(stats.total_virtual_kb, 2048 + 100 + 7 + 4096 + 50 + 60 + 1);
}

#[test]
fn total_is_the_number_of_records_and_bounds_the_counts() {
    let records = fleet();
    let stats = statistics(&records);
    assert_eq!(stats.total, records.len());
    let counted = stats.running
        + stats.sleeping
        + stats.disk_sleep
        + stats.zombie
        + stats.stopped
        + stats.idle;
    assert!(counted <= stats.total);
    assert_eq!(counted, 7);
}

#[test]
fn unknown_states_count_towards_totals_only() {
    let stats = statistics(&vec![record(1, ProcessState::Unknown, 30, 20)]);
    assert_eq!(stats.total, 1);
    assert_eq!(
        stats.running
            + stats.sleeping
            + stats.disk_sleep
            + stats.zombie
            + stats.stopped
            + stats.idle,
        0
    );
    assert_eq!(stats.total_rss_kb, 20);
    assert_eq!(stats.total_virtual_kb, 30);
}

#[test]
fn order_of_records_does_not_matter() {
    let forward = statistics(&fleet());
    let mut reversed = fleet();
    reversed.reverse();
    let mut rotated = fleet();
    rotated.rotate_left(4);
    for other in [statistics(&reversed), statistics(&rotated)] {
        assert_eq!(other.total, forward.total);
        assert_eq!(other.running, forward.running);
        assert_eq!(other.sleeping, forward.sleeping);
        assert_eq!(other.disk_sleep, forward.disk_sleep);
        assert_eq!(other.zombie, forward.zombie);
        assert_eq!(other.stopped, forward.stopped);
        assert_eq!(other.idle, forward.idle);
        assert_eq!(other.total_rss_kb, forward.total_rss_kb);
        assert_eq!(other.total_virtual_kb, forward.total_virtual_kb);
    }
}

#[test]
fn sums_do_not_overflow() {
    let records = vec![
        record(1, ProcessState::Running, usize::MAX, usize::MAX),
        record(2, ProcessState::Running, usize::MAX, usize::MAX),
        record(3, ProcessState::Running, usize::MAX, 1),
    ];
    let stats = statistics(&records);
    assert_eq!(stats.total_virtual_kb, 3 * (usize::MAX as u128));
    assert_eq!(stats.total_rss_kb, 2 * (usize::MAX as u128) + 1);
}

#[test]
fn counts_can_be_asked_by_state() {
    let stats = statistics(&fleet());
    assert_eq!(stats.count(ProcessState::Running), Some(1));
    assert_eq!(stats.count(ProcessState::Sleeping), Some(2));
    assert_eq!(stats.count(ProcessState::DiskSleep), Some(1));
    assert_eq!(stats.count(ProcessState::Zombie), Some(1));
    assert_eq!(stats.count(ProcessState::Stopped), Some(1));
    assert_eq!(stats.count(ProcessState::Idle), Some(1));
    assert_eq!(stats.count(ProcessState::Unknown), None);
}
