//! Following one process: a sample of its processor time at each tick of a
//! clock, and the share of the processor it used between two samples.
//!
//! Nothing here waits or reads. The caller waits for the interval, reads the
//! files of the process and the clock, and hands both to `step`.

use crate::proc::{basic_info, first_failure, read_info, text_or_empty, token_number, u64_token};
use crate::struct_proc::{BasicFiles, ProcError, ProcessInfo, ProcessInfoView};
use crate::text::{chars_of, split, tokens, Separator};
use vstd::prelude::*;

verus! {

/// How long to wait between two samples, in seconds.
pub const SAMPLE_INTERVAL_SECS: u64 = 1;

/// How many nanoseconds make a second.
pub const NANOS_PER_SECOND: u64 = 1_000_000_000;

/// The processor time that a process had used at one moment.
#[derive(Clone, Copy, Debug, PartialEq, Eq, Structural)]
pub struct CpuSample {
    /// Clock ticks spent in user mode since the process started.
    pub utime: u64,
    /// Clock ticks spent in kernel mode since the process started.
    pub stime: u64,
    /// When the sample was taken: nanoseconds on a clock that never goes
    /// back.
    pub wall_clock: u64,
}

impl CpuSample {
    /// The clock ticks that the process had used in all.
    pub open spec fn ticks(self) -> nat {
        (self.utime + self.stime) as nat
    }

    /// The clock ticks that the process had used in all.
    pub fn cumulative_ticks(&self) -> (out: u128)
        ensures
            out == self.ticks(),
    {
        self.utime as u128 + self.stime as u128
    }
}

/// The sample that the one-line statistics `stat` give at the moment
/// `wall_clock`: the two times are the tokens of index 13 and 14, each zero
/// where it is missing or writes no number.
pub open spec fn sample_of(stat: Seq<char>, wall_clock: u64) -> CpuSample {
    CpuSample {
        utime: token_number(tokens(stat), 13, u64::MAX as int) as u64,
        stime: token_number(tokens(stat), 14, u64::MAX as int) as u64,
        wall_clock: wall_clock,
    }
}

/// Reads the processor time of a process out of its one-line statistics,
/// taken at the moment `wall_clock`.
pub fn get_cpu_info(stat: &str, wall_clock: u64) -> (out: CpuSample)
    ensures
        out == sample_of(stat@, wall_clock),
{
    let toks = split(&chars_of(stat), Separator::Whitespace);
    CpuSample { utime: u64_token(&toks, 13), stime: u64_token(&toks, 14), wall_clock }
}

/// Whether a share of the processor can be computed from the sample `prev`
/// to the later sample `now`, at `ticks_per_second` clock ticks a second:
/// time has passed, the ticks have not gone back, and the tick rate is not
/// zero.
pub open spec fn has_usage(prev: CpuSample, now: CpuSample, ticks_per_second: u64) -> bool {
    &&& prev.wall_clock < now.wall_clock
    &&& prev.ticks() <= now.ticks()
    &&& ticks_per_second > 0
}

/// The share of one processor that the process used from `prev` to `now`,
/// in hundredths of a percent, rounded down: the seconds of processor time
/// used, over the seconds that passed, times ten thousand.
pub open spec fn usage(prev: CpuSample, now: CpuSample, ticks_per_second: u64) -> nat {
    let ticks = now.ticks() - prev.ticks();
    let nanos = now.wall_clock - prev.wall_clock;
    ((ticks * 10_000 * NANOS_PER_SECOND) / (ticks_per_second * nanos)) as nat
}

/// A process that used one processor all the time shows a hundred percent:
/// where the ticks used are `ticks_per_second` for each second that passed,
/// over a whole number of seconds, the share is exactly 10 000 hundredths.
pub proof fn lemma_usage_of_one_processor(
    prev: CpuSample,
    now: CpuSample,
    ticks_per_second: u64,
    seconds: nat,
)
    requires
        seconds > 0,
        ticks_per_second > 0,
        now.wall_clock - prev.wall_clock == seconds * NANOS_PER_SECOND,
        now.ticks() - prev.ticks() == seconds * ticks_per_second,
    ensures
        has_usage(prev, now, ticks_per_second),
        usage(prev, now, ticks_per_second) == 10_000,
{
    let ticks = now.ticks() - prev.ticks();
    let nanos = now.wall_clock - prev.wall_clock;
    let den = ticks_per_second * nanos;
    assert(nanos > 0 && ticks >= 0) by (nonlinear_arith)
        requires
            seconds > 0,
            ticks_per_second > 0,
            nanos == seconds * NANOS_PER_SECOND,
            ticks == seconds * ticks_per_second,
    ;
    assert(ticks * 10_000 * NANOS_PER_SECOND == 10_000 * den) by (nonlinear_arith)
        requires
            nanos == seconds * NANOS_PER_SECOND,
            ticks == seconds * ticks_per_second,
            den == ticks_per_second * nanos,
    ;
    assert(den > 0) by (nonlinear_arith)
        requires
            den == ticks_per_second * nanos,
            ticks_per_second > 0,
            nanos > 0,
    ;
    assert((10_000 * den) / den == 10_000) by (nonlinear_arith)
        requires
            den > 0,
    ;
}

/// The share is the true quotient rounded down: it is the largest number of
/// hundredths of a percent that the processor time used makes up of the time
/// that passed.
pub proof fn lemma_usage_is_rounded_down(prev: CpuSample, now: CpuSample, ticks_per_second: u64)
    requires
        has_usage(prev, now, ticks_per_second),
    ensures
        usage(prev, now, ticks_per_second) * (ticks_per_second * (now.wall_clock
            - prev.wall_clock)) <= (now.ticks() - prev.ticks()) * 10_000 * NANOS_PER_SECOND,
        (now.ticks() - prev.ticks()) * 10_000 * NANOS_PER_SECOND < (usage(
            prev,
            now,
            ticks_per_second,
        ) + 1) * (ticks_per_second * (now.wall_clock - prev.wall_clock)),
{
    let nanos = now.wall_clock - prev.wall_clock;
    let den = ticks_per_second * nanos;
    let num = (now.ticks() - prev.ticks()) * 10_000 * NANOS_PER_SECOND;
    assert(den > 0) by (nonlinear_arith)
        requires
            den == ticks_per_second * nanos,
            ticks_per_second > 0,
            nanos > 0,
    ;
    assert(num >= 0) by (nonlinear_arith)
        requires
            num == (now.ticks() - prev.ticks()) * 10_000 * NANOS_PER_SECOND,
            now.ticks() - prev.ticks() >= 0,
    ;
    assert(num / den >= 0 && (num / den) * den <= num < (num / den + 1) * den)
        by (nonlinear_arith)
        requires
            den > 0,
            num >= 0,
    ;
}

/// A process that used no processor time shows zero.
pub proof fn lemma_usage_of_idle(prev: CpuSample, now: CpuSample, ticks_per_second: u64)
    requires
        has_usage(prev, now, ticks_per_second),
        now.ticks() == prev.ticks(),
    ensures
        usage(prev, now, ticks_per_second) == 0,
{
    let nanos = now.wall_clock - prev.wall_clock;
    let den = ticks_per_second * nanos;
    assert(den > 0) by (nonlinear_arith)
        requires
            den == ticks_per_second * nanos,
            ticks_per_second > 0,
            nanos > 0,
    ;
    assert(0 * 10_000 * NANOS_PER_SECOND == 0);
    assert(0int / den == 0) by (nonlinear_arith)
        requires
            den > 0,
    ;
}

/// Computes the share of one processor that the process used from `prev` to
/// `now`, in hundredths of a percent. There is none where no time has
/// passed, where the ticks have gone back, as they do when another process
/// has taken the number, or where the tick rate is zero.
pub fn cpu_percent(prev: &CpuSample, now: &CpuSample, ticks_per_second: u64) -> (out: Option<
    u128,
>)
    ensures
        out is Some <==> has_usage(*prev, *now, ticks_per_second),
        out matches Some(share) ==> share == usage(*prev, *now, ticks_per_second),
{
    let before = prev.cumulative_ticks();
    let after = now.cumulative_ticks();
    if now.wall_clock <= prev.wall_clock || after < before || ticks_per_second == 0 {
        return None;
    }
    let ticks: u128 = after - before;
    let nanos: u64 = now.wall_clock - prev.wall_clock;
    assert(ticks_per_second * nanos <= 0xFFFF_FFFF_FFFF_FFFF * 0xFFFF_FFFF_FFFF_FFFF)
        by (nonlinear_arith)
        requires
            ticks_per_second <= 0xFFFF_FFFF_FFFF_FFFF,
            nanos <= 0xFFFF_FFFF_FFFF_FFFF,
    ;
    assert(ticks_per_second * nanos > 0) by (nonlinear_arith)
        requires
            ticks_per_second > 0,
            nanos > 0,
    ;
    let den: u128 = ticks_per_second as u128 * nanos as u128;
    assert(NANOS_PER_SECOND == 1_000_000_000);
    let num: u128 = ticks * 10_000 * 1_000_000_000;
    Some(num / den)
}

/// Where the following of a process stands.
#[derive(Clone, Copy, Debug, PartialEq, Eq, Structural)]
pub enum Phase {
    /// The first sample was taken; no share has been computed yet.
    Priming,
    /// A share is computed at each tick.
    Sampling,
}

/// The following of one process.
#[derive(Clone, Copy, Debug, PartialEq, Eq, Structural)]
pub struct Monitor {
    pub pid: usize,
    /// How many clock ticks make a second, found out once.
    pub ticks_per_second: u64,
    pub phase: Phase,
    /// The sample that the next one is compared with.
    pub previous: CpuSample,
}

/// How the following of a process began.
#[derive(Clone, Copy, Debug, PartialEq, Eq, Structural)]
pub enum Started {
    /// The statistics of the process could not be read.
    Failed(ProcError),
    /// The record of the process could not be read: there is nothing to
    /// follow.
    NotFound,
    /// The first sample was taken.
    Monitoring(Monitor),
}

/// How the following of process `pid` begins, given what was read of its
/// statistics and of its files at the moment `wall_clock`.
pub open spec fn started(
    pid: usize,
    ticks_per_second: u64,
    stat: Result<String, ProcError>,
    files: BasicFiles,
    wall_clock: u64,
) -> Started {
    match stat {
        Err(e) => Started::Failed(e),
        Ok(text) => if first_failure(files.comm, files.status) is Some {
            Started::NotFound
        } else {
            Started::Monitoring(
                Monitor {
                    pid: pid,
                    ticks_per_second: ticks_per_second,
                    phase: Phase::Priming,
                    previous: sample_of(text@, wall_clock),
                },
            )
        },
    }
}

/// Begins to follow process `pid`.
///
/// `stat` and `files` are what was read of the process at the moment
/// `wall_clock`. Unreadable statistics are a failure. A record that cannot
/// be read says that there is no such process, which is no failure.
/// Otherwise the first sample is taken, and `step` goes on from it.
pub fn start(
    pid: usize,
    ticks_per_second: u64,
    stat: &Result<String, ProcError>,
    files: &BasicFiles,
    wall_clock: u64,
) -> (out: Started)
    ensures
        out == started(pid, ticks_per_second, *stat, *files, wall_clock),
{
    let text = match stat {
        Ok(text) => text,
        Err(e) => {
            return Started::Failed(*e);
        },
    };
    let previous = get_cpu_info(text.as_str(), wall_clock);
    match read_info(pid, files) {
        Ok(_) => Started::Monitoring(
            Monitor { pid, ticks_per_second, phase: Phase::Priming, previous },
        ),
        Err(_) => Started::NotFound,
    }
}

/// What was read of a process after the wait between two samples.
#[derive(Debug)]
pub struct Reading {
    pub files: BasicFiles,
    /// The one-line statistics; `None` where they could not be read.
    pub stat: Option<String>,
    /// When the reading was made, on the clock of the samples.
    pub wall_clock: u64,
    /// The date and time of the reading, as text.
    pub timestamp: String,
}

/// What is reported of a followed process at one tick.
#[derive(Debug)]
pub struct LiveSample {
    pub info: ProcessInfo,
    /// The share of one processor used since the sample before, in
    /// hundredths of a percent; `None` where it cannot be computed.
    pub cpu_percent: Option<u128>,
    pub timestamp: String,
}

/// What a `LiveSample` is, as plain values.
pub struct LiveSampleView {
    pub info: ProcessInfoView,
    pub cpu_percent: Option<u128>,
    pub timestamp: Seq<char>,
}

impl View for LiveSample {
    type V = LiveSampleView;

    open spec fn view(&self) -> LiveSampleView {
        LiveSampleView {
            info: self.info@,
            cpu_percent: self.cpu_percent,
            timestamp: self.timestamp@,
        }
    }
}

/// What a tick brings.
#[derive(Debug)]
pub enum Tick {
    /// The process is gone, and the following ends.
    Terminated,
    /// The process is there: a report, and the following to go on with.
    Sample { next: Monitor, sample: LiveSample },
}

/// Whether the reading `reading` shows that the process is gone: its record
/// or its statistics could not be read.
pub open spec fn is_gone(reading: Reading) -> bool {
    first_failure(reading.files.comm, reading.files.status) is Some || reading.stat is None
}

/// The following after the reading `reading` was taken in.
pub open spec fn advanced(monitor: Monitor, reading: Reading) -> Monitor {
    Monitor {
        pid: monitor.pid,
        ticks_per_second: monitor.ticks_per_second,
        phase: Phase::Sampling,
        previous: sample_of(reading.stat->0@, reading.wall_clock),
    }
}

/// Takes in what was read of the followed process after one wait.
///
/// The following ends where the record or the statistics could not be read.
/// Otherwise the report holds the record as read, the time of the reading as
/// given, and the share of the processor used since the sample before, over
/// the time that passed between the two as the clock measured it. The new
/// sample takes the place of the old one.
pub fn step(monitor: Monitor, reading: &Reading) -> (out: Tick)
    ensures
        out is Terminated <==> is_gone(*reading),
        out matches Tick::Sample { next, sample } ==> {
            &&& next == advanced(monitor, *reading)
            &&& sample.info@ == basic_info(
                monitor.pid,
                reading.files.comm->Ok_0@,
                reading.files.status->Ok_0@,
                text_or_empty(reading.files.cmdline),
            )
            &&& sample.timestamp@ == reading.timestamp@
            &&& sample.cpu_percent is Some <==> has_usage(
                monitor.previous,
                next.previous,
                monitor.ticks_per_second,
            )
            &&& sample.cpu_percent matches Some(share) ==> share == usage(
                monitor.previous,
                next.previous,
                monitor.ticks_per_second,
            )
        },
{
    let info = match read_info(monitor.pid, &reading.files) {
        Ok(info) => info,
        Err(_) => {
            return Tick::Terminated;
        },
    };
    let stat = match &reading.stat {
        Some(stat) => stat,
        None => {
            return Tick::Terminated;
        },
    };
    let now = get_cpu_info(stat.as_str(), reading.wall_clock);
    let share = cpu_percent(&monitor.previous, &now, monitor.ticks_per_second);
    let next = Monitor {
        pid: monitor.pid,
        ticks_per_second: monitor.ticks_per_second,
        phase: Phase::Sampling,
        previous: now,
    };
    Tick::Sample {
        next,
        sample: LiveSample { info, cpu_percent: share, timestamp: reading.timestamp.clone() },
    }
}

} // verus!
