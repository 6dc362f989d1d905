use prettier_process::live::{
    cpu_percent, get_cpu_info, start, step, CpuSample, Monitor, Phase, Reading, Started, Tick,
    NANOS_PER_SECOND, SAMPLE_INTERVAL_SECS,
};
use prettier_process::struct_proc::{BasicFiles, ProcError, ProcessState};

fn stat(utime: u64, stime: u64) -> String {
    format!("4242 (bash) S 10 4242 4242 34816 4242 4194304 1500 2000 0 0 {} {} 3 1 20 0 1 0 5", utime, stime)
}

fn files() -> BasicFiles {
    BasicFiles {
        comm: Ok(String::from("bash\n")),
        status: Ok(String::from("State:\tR (running)\nVmSize:\t2048 kB\nVmRSS:\t512 kB\n")),
        cmdline: Some(String::from("bash\0")),
    }
}

fn gone() -> BasicFiles {
    BasicFiles { comm: Err(ProcError::NotFound), status: Err(ProcError::NotFound), cmdline: None }
}

fn sample(ticks: u64, wall_clock: u64) -> CpuSample {
    CpuSample { utime: ticks, stime: 0, wall_clock }
}

#[test]
fn the_interval_is_one_second() {
    assert_eq!(SAMPLE_INTERVAL_SECS, 1);
    assert_eq!(NANOS_PER_SECOND, 1_000_000_000);
}

#[test]
fn cpu_sample_is_user_time_and_system_time() {
    let s = get_cpu_info(&stat(25, 7), 99);
    assert_eq!(s, CpuSample { utime: 25, stime: 7, wall_clock: 99 });
    assert_eq!(s.cumulative_ticks(), 32);
    let short = get_cpu_info("1 (x) S", 5);
    assert_eq!(short, CpuSample { utime: 0, stime: 0, wall_clock: 5 });
    let big = CpuSample { utime: u64::MAX, stime: u64::MAX, wall_clock: 0 };
    assert_eq!(big.cumulative_ticks(), 2 * (u64::MAX as u128));
}

#[test]
fn one_second_of_ticks_in_one_second_is_a_hundred_percent() {
    let prev = sample(500, 1_000);
    let now = sample(600, 1_000 + NANOS_PER_SECOND);
    assert_eq!(cpu_percent(&prev, &now, 100), Some(10_000));
}

#[test]
fn shares_are_exact_to_the_hundredth() {
    let second = NANOS_PER_SECOND;
    assert_eq!(cpu_percent(&sample(0, 0), &sample(50, second), 100), Some(5_000));
    assert_eq!(cpu_percent(&sample(0, 0), &sample(1, second), 100), Some(100));
    assert_eq!(cpu_percent(&sample(0, 0), &sample(1, 3 * second), 100), Some(33));
    assert_eq!(cpu_percent(&sample(0, 0), &sample(200, second), 100), Some(20_000));
    assert_eq!(cpu_percent(&sample(0, 0), &sample(100, 1_001_000_000), 100), Some(9_990));
    assert_eq!(cpu_percent(&sample(7, 5), &sample(7, 5 + second), 100), Some(0));
    assert_eq!(
        cpu_percent(
            &CpuSample { utime: 10, stime: 20, wall_clock: 0 },
            &CpuSample { utime: 40, stime: 40, wall_clock: 2 * second },
            100
        ),
        Some(2_500)
    );
}

#[test]
fn share_is_never_negative_when_ticks_do_not_go_back() {
    let rates = [1u64, 100, 250, 1000];
    let ticks = [0u64, 1, 99, 100, 101, 5000];
    let nanos = [1u64, 999_999_999, 1_000_000_000, 1_000_000_001, 60_000_000_000];
    for rate in rates {
        for more in ticks {
            for passed in nanos {
                let share = cpu_percent(&sample(1000, 10), &sample(1000 + more, 10 + passed), rate);
                let expected =
                    (more as u128) * 10_000 * 1_000_000_000 / ((rate as u128) * (passed as u128));
                assert_eq!(share, Some(expected));
            }
        }
    }
}

#[test]
fn share_cannot_be_computed_without_time_or_rate_or_order() {
    assert_eq!(cpu_percent(&sample(0, 5), &sample(10, 5), 100), None);
    assert_eq!(cpu_percent(&sample(0, 5), &sample(10, 4), 100), None);
    assert_eq!(cpu_percent(&sample(0, 5), &sample(10, 6), 0), None);
    assert_eq!(cpu_percent(&sample(11, 5), &sample(10, 6), 100), None);
}

#[test]
fn share_of_the_largest_samples_does_not_overflow() {
    let prev = CpuSample { utime: 0, stime: 0, wall_clock: 0 };
    let now = CpuSample { utime: u64::MAX, stime: u64::MAX, wall_clock: 1 };
    let expected = 2 * (u64::MAX as u128) * 10_000_000_000_000;
    assert_eq!(cpu_percent(&prev, &now, 1), Some(expected));
    let late = CpuSample { utime: 1, stime: 0, wall_clock: u64::MAX };
    assert_eq!(cpu_percent(&prev, &late, u64::MAX), Some(0));
}

#[test]
fn start_takes_the_first_sample() {
    let started = start(4242, 100, &Ok(stat(25, 7)), &files(), 1_000);
    assert_eq!(
        started,
        Started::Monitoring(Monitor {
            pid: 4242,
            ticks_per_second: 100,
            phase: Phase::Priming,
            previous: CpuSample { utime: 25, stime: 7, wall_clock: 1_000 },
        })
    );
}

#[test]
fn start_fails_without_statistics() {
    assert_eq!(
        start(4242, 100, &Err(ProcError::NotFound), &files(), 0),
        Started::Failed(ProcError::NotFound)
    );
    assert_eq!(
        start(4242, 100, &Err(ProcError::IoError), &gone(), 0),
        Started::Failed(ProcError::IoError)
    );
}

#[test]
fn start_reports_a_process_that_is_not_there() {
    assert_eq!(start(4242, 100, &Ok(stat(1, 1)), &gone(), 0), Started::NotFound);
}

fn monitor() -> Monitor {
    Monitor {
        pid: 4242,
        ticks_per_second: 100,
        phase: Phase::Priming,
        previous: CpuSample { utime: 25, stime: 7, wall_clock: 1_000 },
    }
}

#[test]
fn step_reports_the_record_the_share_and_the_time() {
    let reading = Reading {
        files: files(),
        stat: Some(stat(100, 32)),
        wall_clock: 1_000 + 2 * NANOS_PER_SECOND,
        timestamp: String::from("2024-05-01 12:00:00"),
    };
    match step(monitor(), &reading) {
        Tick::Sample { next, sample } => {
            assert_eq!(sample.info.pid, 4242);
            assert_eq!(sample.info.name, "bash");
            assert_eq!(sample.info.state, ProcessState::Running);
            assert_eq!(sample.info.vm_rss, 512);
            assert_eq!(sample.info.vm_size, 2048);
            assert_eq!(sample.cpu_percent, Some(5_000));
            assert_eq!(sample.timestamp, "2024-05-01 12:00:00");
            assert_eq!(
                next,
                Monitor {
                    pid: 4242,
                    ticks_per_second: 100,
                    phase: Phase::Sampling,
                    previous: CpuSample {
                        utime: 100,
                        stime: 32,
                        wall_clock: 1_000 + 2 * NANOS_PER_SECOND
                    },
                }
            );
        }
        Tick::Terminated => panic!("the process is there"),
    }
}

#[test]
fn each_step_compares_with_the_sample_before() {
    let first = Reading {
        files: files(),
        stat: Some(stat(125, 7)),
        wall_clock: 1_000 + NANOS_PER_SECOND,
        timestamp: String::from("t1"),
    };
    let second = Reading {
        files: files(),
        stat: Some(stat(125, 57)),
        wall_clock: 1_000 + 3 * NANOS_PER_SECOND,
        timestamp: String::from("t2"),
    };
    let after_first = match step(monitor(), &first) {
        Tick::Sample { next, sample } => {
            assert_eq!(sample.cpu_percent, Some(10_000));
            assert_eq!(next.phase, Phase::Sampling);
            next
        }
        Tick::Terminated => panic!("the process is there"),
    };
    match step(after_first, &second) {
        Tick::Sample { next, sample } => {
            assert_eq!(sample.cpu_percent, Some(2_500));
            assert_eq!(sample.timestamp, "t2");
            assert_eq!(next.phase, Phase::Sampling);
            assert_eq!(next.ticks_per_second, 100);
            assert_eq!(next.pid, 4242);
        }
        Tick::Terminated => panic!("the process is there"),
    }
}

#[test]
fn step_ends_when_the_process_is_gone() {
    let no_record =
        Reading { files: gone(), stat: Some(stat(1, 1)), wall_clock: 5, timestamp: String::new() };
    assert!(matches!(step(monitor(), &no_record), Tick::Terminated));
    let no_stat = Reading { files: files(), stat: None, wall_clock: 5, timestamp: String::new() };
    assert!(matches!(step(monitor(), &no_stat), Tick::Terminated));
}

#[test]
fn step_without_a_share_still_reports() {
    let reading = Reading {
        files: files(),
        stat: Some(stat(1, 1)),
        wall_clock: 2_000,
        timestamp: String::from("now"),
    };
    match step(monitor(), &reading) {
        Tick::Sample { sample, next } => {
            assert_eq!(sample.cpu_percent, None);
            assert_eq!(next.previous, CpuSample { utime: 1, stime: 1, wall_clock: 2_000 });
        }
        Tick::Terminated => panic!("the process is there"),
    }
}
