use prettier_process::limits::parse_limits;
use prettier_process::proc::{
    get_pids_info, list_proc, parse_info, pid_of_entry, pinfo, process_ids, read_all_info,
    read_info, read_records, Inquiry,
};
use prettier_process::struct_proc::{
    BasicFiles, FullFiles, LimitKind, ProcError, Process, ProcessState,
};
use prettier_process::text::first_token;

const STATUS: &str = "Name:\tbash\nUmask:\t0022\nState:\tS (sleeping)\nTgid:\t4242\nPid:\t4242\n\
PPid:\t10\nTracerPid:\t0\nUid:\t1000\t1001\t1002\t1003\nGid:\t1000\t1000\t1000\t1000\n\
VmPeak:\t    4096 kB\nVmSize:\t    2048 kB\nVmLck:\t       1 kB\nVmHWM:\t     600 kB\n\
VmRSS:\t     512 kB\nVmData:\t     300 kB\nVmStk:\t     132 kB\nVmExe:\t     900 kB\n\
VmLib:\t    1700 kB\nVmSwap:\t       2 kB\nThreads:\t4\nSigQ:\t0/127235\n";

const STAT: &str = "4242 (bash) S 10 4242 4242 34816 4242 4194304 1500 2000 0 0 \
25 7 3 1 20 -5 1 0 123456 2097152 128 18446744073709551615 1 1 0 0 0 0 0 0 0 0 0 0 17 3 0 0\n";

const LIMITS: &str = "\
Limit                     Soft Limit           Hard Limit           Units     \n\
Max cpu time              unlimited            unlimited            seconds   \n\
Max file size             2048                 unlimited            bytes     \n\
Max data size             unlimited            unlimited            bytes     \n\
Max stack size            8388608              unlimited            bytes     \n\
Max core file size        0                    unlimited            bytes     \n\
Max resident set          unlimited            unlimited            bytes     \n\
Max processes             127235               127235               processes \n\
Max open files            1024                 524288               files     \n\
Max locked memory         8388608              8388608              bytes     \n\
Max address space         unlimited            unlimited            bytes     \n\
Max file locks            unlimited            unlimited            locks     \n\
Max pending signals       127235               127235               signals   \n\
Max msgqueue size         819200               819200               bytes     \n\
Max nice priority         0                    0                    \n\
Max realtime priority     0                    0                    \n\
Max realtime timeout      200                  unlimited            us        \n";

fn basic_files() -> BasicFiles {
    BasicFiles {
        comm: Ok(String::from("bash\n")),
        status: Ok(String::from(STATUS)),
        cmdline: Some(String::from("/bin/bash\0--login\0-i\0")),
    }
}

fn absent_basic_files() -> BasicFiles {
    BasicFiles { comm: Err(ProcError::NotFound), status: Err(ProcError::NotFound), cmdline: None }
}

fn full_files() -> FullFiles {
    FullFiles {
        basic: basic_files(),
        stat: Some(String::from(STAT)),
        uptime: 98765,
        io: Some(String::from(
            "rchar: 1\nwchar: 2\nsyscr: 30\nsyscw: 40\nread_bytes: 4096\nwrite_bytes: 8192\n\
cancelled_write_bytes: 0\n",
        )),
        fd: Some(vec![
            Some(String::from("/dev/pts/0")),
            None,
            Some(String::from("socket:[12345]")),
            None,
            Some(String::from("/tmp/log")),
        ]),
        cwd: Some(String::from("/home/user")),
        exe: Some(String::from("/usr/bin/bash")),
        root: Some(String::from("/")),
        limits: Some(String::from(LIMITS)),
        environ: Some(String::from("PATH=/usr/bin\0HOME=/home/user\0EMPTY=\0")),
        numa_maps: Some(String::from("00400000 default file=/usr/bin/bash\n7ffd default stack\n")),
        cgroup: Some(String::from("0::/user.slice/session-1.scope\n")),
        syscall: Some(String::from("61 0xffffffff 0x7ffd 0xa\n")),
        wchan: Some(String::from("do_wait")),
    }
}

fn absent_full_files() -> FullFiles {
    FullFiles {
        basic: absent_basic_files(),
        stat: None,
        uptime: 0,
        io: None,
        fd: None,
        cwd: None,
        exe: None,
        root: None,
        limits: None,
        environ: None,
        numa_maps: None,
        cgroup: None,
        syscall: None,
        wchan: None,
    }
}

#[test]
fn status_block_gives_the_basic_fields() {
    let status =
        "State: S\nPPid: 10\nUid: 1000\nGid: 1000\nThreads: 4\nVmSize: 2048\nVmRSS: 512\n";
    let info = parse_info(77, "worker\n", status, "");
    assert_eq!(info.pid, 77);
    assert_eq!(info.name, "worker");
    assert_eq!(info.state, ProcessState::Sleeping);
    assert_eq!(info.ppid, 10);
    assert_eq!(info.uid, 1000);
    assert_eq!(info.gid, 1000);
    assert_eq!(info.threads, 4);
    assert_eq!(info.vm_size, 2048);
    assert_eq!(info.vm_rss, 512);
    assert_eq!(info.cmdline, "");
}

#[test]
fn basic_record_of_a_real_looking_process() {
    let info = read_info(4242, &basic_files()).unwrap();
    assert_eq!(info.pid, 4242);
    assert_eq!(info.name, "bash");
    assert_eq!(info.state, ProcessState::Sleeping);
    assert_eq!(info.ppid, 10);
    assert_eq!(info.uid, 1000);
    assert_eq!(info.gid, 1000);
    assert_eq!(info.threads, 4);
    assert_eq!(info.vm_size, 2048);
    assert_eq!(info.vm_rss, 512);
    assert_eq!(info.cmdline, "/bin/bash --login -i");
}

#[test]
fn each_state_code_is_recognised() {
    let cases = [
        ("R", ProcessState::Running),
        ("S", ProcessState::Sleeping),
        ("D", ProcessState::DiskSleep),
        ("Z", ProcessState::Zombie),
        ("T", ProcessState::Stopped),
        ("I", ProcessState::Idle),
        ("X", ProcessState::Unknown),
        ("t", ProcessState::Unknown),
        ("RS", ProcessState::Unknown),
    ];
    for (code, state) in cases {
        let status = format!("State:\t{} (something)\n", code);
        assert_eq!(parse_info(1, "x", &status, "").state, state, "{}", code);
    }
    assert_eq!(parse_info(1, "x", "State:\n", "").state, ProcessState::Unknown);
    assert_eq!(parse_info(1, "x", "", "").state, ProcessState::Unknown);
}

#[test]
fn state_codes_stand_for_their_states() {
    let states = [
        ProcessState::Running,
        ProcessState::Sleeping,
        ProcessState::DiskSleep,
        ProcessState::Zombie,
        ProcessState::Stopped,
        ProcessState::Idle,
    ];
    for state in states {
        let code = state.code().unwrap();
        assert_eq!(ProcessState::from_code(&vec![code]), state);
    }
    assert_eq!(ProcessState::Unknown.code(), None);
    assert_eq!(ProcessState::Sleeping.code(), Some('S'));
}

#[test]
fn absent_and_malformed_fields_are_zero() {
    let status = "PPid:\nUid: abc\nGid: -3\nThreads: 4294967296000000000000\nVmRSS: 12kB\nVmSize 99\n";
    let info = parse_info(5, "", status, "");
    assert_eq!(info.name, "");
    assert_eq!(info.state, ProcessState::Unknown);
    assert_eq!(info.ppid, 0);
    assert_eq!(info.uid, 0);
    assert_eq!(info.gid, 0);
    assert_eq!(info.threads, 0);
    assert_eq!(info.vm_rss, 0);
    assert_eq!(info.vm_size, 0);
}

#[test]
fn lines_may_come_in_any_order_and_with_strangers_between() {
    let status = "Future: 1 2 3\nVmRSS: 512 kB\n\nThreads: 4\nState: R (running)\nPPid: 10\n???\n";
    let info = parse_info(5, "x", status, "");
    assert_eq!(info.state, ProcessState::Running);
    assert_eq!(info.ppid, 10);
    assert_eq!(info.threads, 4);
    assert_eq!(info.vm_rss, 512);
}

#[test]
fn the_last_line_with_a_key_counts() {
    let info = parse_info(5, "x", "PPid: 1\nPPid: 2\nThreads: 9\nThreads:\n", "");
    assert_eq!(info.ppid, 2);
    assert_eq!(info.threads, 0);
}

#[test]
fn command_line_has_spaces_for_nuls() {
    assert_eq!(parse_info(1, "x", "", "a\0b c\0\0d\0").cmdline, "a b c  d");
    assert_eq!(parse_info(1, "x", "", "\0\0").cmdline, "");
}

#[test]
fn missing_command_line_is_empty() {
    let mut files = basic_files();
    files.cmdline = None;
    assert_eq!(read_info(4242, &files).unwrap().cmdline, "");
}

#[test]
fn absent_process_is_not_found() {
    assert_eq!(read_info(31337, &absent_basic_files()).unwrap_err(), ProcError::NotFound);
    assert_eq!(read_all_info(31337, &absent_full_files()).unwrap_err(), ProcError::NotFound);
}

#[test]
fn process_that_vanishes_between_two_reads_is_not_found() {
    let mut files = basic_files();
    files.status = Err(ProcError::NotFound);
    assert_eq!(read_info(1, &files).unwrap_err(), ProcError::NotFound);
    let mut full = full_files();
    full.basic.status = Err(ProcError::NotFound);
    assert_eq!(read_all_info(1, &full).unwrap_err(), ProcError::NotFound);
}

#[test]
fn unreadable_needed_file_is_an_io_error() {
    let mut files = basic_files();
    files.comm = Err(ProcError::IoError);
    files.status = Err(ProcError::NotFound);
    assert_eq!(read_info(1, &files).unwrap_err(), ProcError::IoError);
    let mut files = basic_files();
    files.status = Err(ProcError::IoError);
    assert_eq!(read_info(1, &files).unwrap_err(), ProcError::IoError);
    let mut full = full_files();
    full.basic.status = Err(ProcError::IoError);
    assert_eq!(read_all_info(1, &full).unwrap_err(), ProcError::IoError);
}

#[test]
fn records_carry_the_number_asked_for() {
    for pid in [1usize, 4242, 99999, usize::MAX] {
        assert_eq!(read_info(pid, &basic_files()).unwrap().pid, pid);
        assert_eq!(read_all_info(pid, &full_files()).unwrap().basic.pid, pid);
    }
}

#[test]
fn full_record_of_a_real_looking_process() {
    let info = read_all_info(4242, &full_files()).unwrap();
    assert_eq!(info.basic.name, "bash");
    assert_eq!(info.basic.state, ProcessState::Sleeping);
    assert_eq!(info.basic.ppid, 10);
    assert_eq!(info.basic.threads, 4);
    assert_eq!(info.basic.vm_size, 2048);
    assert_eq!(info.basic.vm_rss, 512);
    assert_eq!(info.basic.cmdline, "/bin/bash --login -i");
    assert_eq!(info.memory.vm_data, 300);
    assert_eq!(info.memory.vm_stack, 132);
    assert_eq!(info.memory.vm_exe, 900);
    assert_eq!(info.memory.vm_lib, 1700);
    assert_eq!(info.memory.vm_swap, 2);
    assert_eq!(info.memory.vm_locked, 1);
    assert_eq!(info.memory.vm_hwm, 600);
    assert_eq!(info.memory.vm_peak, 4096);
    assert_eq!(info.cpu.utime, 25);
    assert_eq!(info.cpu.stime, 7);
    assert_eq!(info.cpu.sttime, 123456);
    assert_eq!(info.cpu.uptime, 98765);
    assert_eq!(info.scheduling.prio, 20);
    assert_eq!(info.scheduling.nice, -5);
    assert_eq!(info.scheduling.policy, "SCHED_OTHER");
    assert_eq!(info.scheduling.rt_prio, 0);
    assert_eq!(info.io.read_bytes, Some(4096));
    assert_eq!(info.io.write_bytes, Some(8192));
    assert_eq!(info.io.read_count, Some(30));
    assert_eq!(info.io.write_count, Some(40));
    assert_eq!(info.io.cancelled_write_bytes, Some(0));
    assert_eq!(info.files.cwd, "/home/user");
    assert_eq!(info.files.exe, "/usr/bin/bash");
    assert_eq!(info.files.root, "/");
    assert!(info.tcp_connections.is_empty());
    assert!(info.udp_connections.is_empty());
    assert!(info.unix_sockets.is_empty());
    assert_eq!(info.environment, vec!["PATH=/usr/bin", "HOME=/home/user", "EMPTY="]);
    assert_eq!(info.numa_maps, vec!["00400000 default file=/usr/bin/bash", "7ffd default stack"]);
    assert_eq!(info.cgroups, vec!["0::/user.slice/session-1.scope"]);
    assert_eq!(info.syscall.as_deref(), Some("61 0xffffffff 0x7ffd 0xa"));
    assert_eq!(info.wchan.as_deref(), Some("do_wait"));
}

#[test]
fn three_of_five_descriptors_resolve() {
    let info = read_all_info(4242, &full_files()).unwrap();
    assert_eq!(info.files.fd_count, 5);
    assert_eq!(info.files.open_files.len(), 3);
    assert_eq!(info.files.open_files, vec!["/dev/pts/0", "socket:[12345]", "/tmp/log"]);
}

#[test]
fn only_the_needed_files_are_needed() {
    let mut files = absent_full_files();
    files.basic = basic_files();
    let info = read_all_info(4242, &files).unwrap();
    assert_eq!(info.basic.name, "bash");
    assert_eq!(info.cpu.utime, 0);
    assert_eq!(info.cpu.stime, 0);
    assert_eq!(info.cpu.sttime, 0);
    assert_eq!(info.cpu.uptime, 0);
    assert_eq!(info.scheduling.prio, 0);
    assert_eq!(info.scheduling.nice, 0);
    assert_eq!(info.io.read_bytes, None);
    assert_eq!(info.io.write_bytes, None);
    assert_eq!(info.io.read_count, None);
    assert_eq!(info.io.write_count, None);
    assert_eq!(info.io.cancelled_write_bytes, None);
    assert_eq!(info.files.fd_count, 0);
    assert!(info.files.open_files.is_empty());
    assert_eq!(info.files.cwd, "N/A");
    assert_eq!(info.files.exe, "N/A");
    assert_eq!(info.files.root, "N/A");
    assert_eq!(info.limits.mxopen_files, "unlimited");
    assert_eq!(info.limits.mxnice_prio, "0");
    assert!(info.environment.is_empty());
    assert!(info.numa_maps.is_empty());
    assert!(info.cgroups.is_empty());
    assert_eq!(info.syscall, None);
    assert_eq!(info.wchan, None);
}

#[test]
fn counters_that_cannot_be_read_are_none_and_not_zero() {
    let mut files = full_files();
    files.io = Some(String::from("read_bytes: 0\nwrite_bytes: many\nsyscr:\nsyscw: -1\n"));
    let info = read_all_info(1, &files).unwrap();
    assert_eq!(info.io.read_bytes, Some(0));
    assert_eq!(info.io.write_bytes, None);
    assert_eq!(info.io.read_count, None);
    assert_eq!(info.io.write_count, None);
    assert_eq!(info.io.cancelled_write_bytes, None);
}

#[test]
fn short_statistics_leave_zeros() {
    let mut files = full_files();
    files.stat = Some(String::from("1 (x) S 0 1 1 0 -1 4194560 10 20 30 40 50"));
    let info = read_all_info(1, &files).unwrap();
    assert_eq!(info.cpu.utime, 50);
    assert_eq!(info.cpu.stime, 0);
    assert_eq!(info.cpu.sttime, 0);
    assert_eq!(info.scheduling.prio, 0);
    assert_eq!(info.scheduling.nice, 0);
}

#[test]
fn open_files_limit_is_its_soft_value() {
    let limits = parse_limits(LIMITS);
    assert_eq!(limits.mxopen_files, "1024");
    assert_eq!(limits.get(LimitKind::OpenFiles), "1024");
    let short = parse_limits("Limit Soft Hard Units\nMax open files 1024 4096 files\n");
    assert_eq!(short.mxopen_files, "1024");
}

#[test]
fn absent_limit_line_is_unlimited() {
    let limits = parse_limits("Limit Soft Hard Units\nMax cpu time 10 20 seconds\n");
    assert_eq!(limits.mxopen_files, "unlimited");
    assert_eq!(limits.mxcpu_time, "10");
    let none = parse_limits("");
    assert_eq!(none.mxopen_files, "unlimited");
    assert_eq!(none.mxcpu_time, "unlimited");
    assert_eq!(none.mxrealtime_timeout, "unlimited");
    assert_eq!(none.mxnice_prio, "0");
    assert_eq!(none.mxrealtime_prio, "0");
}

#[test]
fn limits_of_a_whole_table() {
    let limits = parse_limits(LIMITS);
    assert_eq!(limits.mxcpu_time, "unlimited");
    assert_eq!(limits.mxfile_size, "2048");
    assert_eq!(limits.mxdata_size, "unlimited");
    assert_eq!(limits.mxstack_size, "8388608");
    assert_eq!(limits.mxcore_file_size, "0");
    assert_eq!(limits.mxresident_set, "unlimited");
    assert_eq!(limits.mxprocesses, "127235");
    assert_eq!(limits.mxopen_files, "1024");
    assert_eq!(limits.mxlocked_memory, "8388608");
    assert_eq!(limits.mxaddress_space, "unlimited");
    assert_eq!(limits.mxfile_locks, "unlimited");
    assert_eq!(limits.mxpending_signals, "127235");
    assert_eq!(limits.mxmsgqueue_size, "819200");
    assert_eq!(limits.mxnice_prio, "0");
    assert_eq!(limits.mxrealtime_prio, "0");
    assert_eq!(limits.mxrealtime_timeout, "200");
}

#[test]
fn limit_lines_need_a_value_and_the_heading_is_no_limit() {
    assert_eq!(parse_limits("Max open files 7 8 files\n").mxopen_files, "unlimited");
    assert_eq!(parse_limits("Limit\nMax open files\n").mxopen_files, "unlimited");
    assert_eq!(parse_limits("Limit\nMax open files 5\nMax open files\n").mxopen_files, "5");
    assert_eq!(parse_limits("Limit\nMax open files 5\nMax open files 6 7\n").mxopen_files, "6");
    assert_eq!(parse_limits("Limit\nMax open file 5 6\n").mxopen_files, "unlimited");
    assert_eq!(parse_limits("Limit\nMax nice prio 3 4\n").mxnice_prio, "3");
    assert_eq!(parse_limits("Limit\nMax nice priority 3 4\n").mxnice_prio, "0");
}

#[test]
fn every_limit_has_a_name_and_a_fallback() {
    assert_eq!(LimitKind::OpenFiles.name(), "Max open files");
    assert_eq!(LimitKind::CoreFileSize.name(), "Max core file size");
    assert_eq!(LimitKind::OpenFiles.fallback(), "unlimited");
    assert_eq!(LimitKind::NicePrio.fallback(), "0");
    assert_eq!(LimitKind::RealtimePrio.fallback(), "0");
    assert_eq!(LimitKind::RealtimeTimeout.fallback(), "unlimited");
}

#[test]
fn entries_with_a_positive_number_are_processes() {
    assert_eq!(pid_of_entry("1"), Some(1));
    assert_eq!(pid_of_entry("4242"), Some(4242));
    assert_eq!(pid_of_entry("0"), None);
    assert_eq!(pid_of_entry("self"), None);
    assert_eq!(pid_of_entry("12a"), None);
    assert_eq!(pid_of_entry(""), None);
    assert_eq!(pid_of_entry("-3"), None);
    assert_eq!(pid_of_entry("99999999999999999999999"), None);
    let listing = Some(vec![
        String::from("1"),
        String::from("cpuinfo"),
        String::from("4242"),
        String::from("sys"),
        String::from("17"),
        String::from("0"),
    ]);
    assert_eq!(process_ids(&listing), vec![1, 4242, 17]);
}

#[test]
fn empty_or_unlistable_root_shows_no_process() {
    assert!(process_ids(&None).is_empty());
    assert!(process_ids(&Some(Vec::new())).is_empty());
    assert!(list_proc(&None).is_empty());
    assert!(list_proc(&Some(Vec::new())).is_empty());
    assert!(get_pids_info(&Vec::new()).is_empty());
}

#[test]
fn vanished_processes_are_left_out_of_the_list() {
    let found = vec![
        (1usize, Some(String::from("systemd\n"))),
        (17usize, None),
        (4242usize, Some(String::from("  bash \n"))),
    ];
    let list = list_proc(&Some(found));
    assert_eq!(list.len(), 2);
    assert_eq!(list[0].pid, 1);
    assert_eq!(list[0].name, "systemd");
    assert_eq!(list[1].pid, 4242);
    assert_eq!(list[1].name, "bash");
}

#[test]
fn inquiry_needs_a_known_process() {
    let known = vec![
        Process { pid: 1, name: String::from("systemd") },
        Process { pid: 4242, name: String::from("bash") },
    ];
    assert_eq!(pinfo(4242, false, &known), Inquiry::Basic);
    assert_eq!(pinfo(4242, true, &known), Inquiry::Full);
    assert_eq!(pinfo(1, true, &known), Inquiry::Full);
    assert_eq!(pinfo(2, false, &known), Inquiry::Unrecognized);
    assert_eq!(pinfo(2, true, &known), Inquiry::Unrecognized);
    assert_eq!(pinfo(1, false, &Vec::new()), Inquiry::Unrecognized);
}

#[test]
fn first_token_of_the_uptime_file() {
    assert_eq!(first_token("98765.43 12345.67\n").as_deref(), Some("98765.43"));
    assert_eq!(first_token("  \n").as_deref(), None);
    assert_eq!(first_token("").as_deref(), None);
}

#[test]
fn records_that_cannot_be_made_are_left_out() {
    let mut unreadable = basic_files();
    unreadable.status = Err(ProcError::IoError);
    let found = vec![
        (1usize, basic_files()),
        (2usize, absent_basic_files()),
        (3usize, unreadable),
        (4usize, basic_files()),
    ];
    let records = read_records(&found);
    assert_eq!(records.len(), 2);
    assert_eq!(records[0].pid, 1);
    assert_eq!(records[0].name, "bash");
    assert_eq!(records[1].pid, 4);
    assert!(read_records(&Vec::new()).is_empty());
}
