//! Results as plain text.
//!
//! Each text is described as a list of parts, most of them lines, and is
//! these parts one after the other.

use crate::live::{LiveSample, LiveSampleView};
use crate::stats::{AggregateStats, AggregateStatsView};
use crate::struct_proc::{
    text_if_any, CpuTimes, FileContext, FileContextView, FullProcessInfo, FullProcessInfoView,
    IoCounters, LimitKind, MemoryUsage, Process, ProcessInfo, ProcessInfoView, ProcessState,
    ProcessView, ResourceLimits, Scheduling, SchedulingView,
};
use crate::text::{decimal_digits, digits_of, signed_digits, signed_digits_of, string_of};
use vstd::prelude::*;
use vstd::string::StringExecFns;

verus! {

/// A label, a value and what follows the value, one after the other.
pub open spec fn entry(label: Seq<char>, value: Seq<char>, tail: Seq<char>) -> Seq<char> {
    label + value + tail
}

/// Adds `text` to `parts`.
pub(crate) fn add_text(parts: &mut Vec<String>, text: &str)
    ensures
        final(parts).deep_view() == old(parts).deep_view().push(text@),
{
    parts.push(String::from_str(text));
    assert(parts.deep_view() =~= old(parts).deep_view().push(text@));
}

/// Adds to `parts` a label, a value and what follows the value.
pub(crate) fn add_entry(parts: &mut Vec<String>, label: &str, value: &str, tail: &str)
    ensures
        final(parts).deep_view() == old(parts).deep_view().push(entry(label@, value@, tail@)),
{
    let mut part = String::from_str(label);
    part.append(value);
    part.append(tail);
    parts.push(part);
    assert(parts.deep_view() =~= old(parts).deep_view().push(entry(label@, value@, tail@)));
}

/// Adds to `parts` a label, a number and what follows the number.
pub(crate) fn add_number(parts: &mut Vec<String>, label: &str, n: u128, tail: &str)
    ensures
        final(parts).deep_view() == old(parts).deep_view().push(
            entry(label@, decimal_digits(n as nat), tail@),
        ),
{
    let digits = string_of(&digits_of(n));
    add_entry(parts, label, digits.as_str(), tail);
}

/// Adds to `parts` a label, a signed number and what follows the number.
pub(crate) fn add_signed(parts: &mut Vec<String>, label: &str, n: i32, tail: &str)
    ensures
        final(parts).deep_view() == old(parts).deep_view().push(
            entry(label@, signed_digits(n as int), tail@),
        ),
{
    let digits = string_of(&signed_digits_of(n));
    add_entry(parts, label, digits.as_str(), tail);
}

/// Puts `parts` one after the other.
pub(crate) fn join(parts: &Vec<String>) -> (out: String)
    ensures
        out@ == parts.deep_view().flatten(),
{
    let ghost all = parts.deep_view();
    let mut out = String::new();
    let mut i: usize = 0;
    assert(all.take(0) =~= Seq::<Seq<char>>::empty());
    while i < parts.len()
        invariant
            i <= parts.len(),
            all == parts.deep_view(),
            out@ == all.take(i as int).flatten(),
        decreases parts.len() - i,
    {
        proof {
            assert(all.take(i + 1) =~= all.take(i as int).push(all[i as int]));
            all.take(i as int).lemma_flatten_push(all[i as int]);
            assert(all[i as int] == parts@[i as int]@);
        }
        out.append(parts[i].as_str());
        i += 1;
    }
    assert(all.take(i as int) =~= all);
    out
}

/// The state as it is shown: its one-letter code, or `None` for `Unknown`.
pub open spec fn state_text(state: ProcessState) -> Seq<char> {
    match state.spec_code() {
        Some(code) => seq![code],
        None => "None"@,
    }
}

/// Writes the state as it is shown.
pub fn state_text_of(state: ProcessState) -> (out: String)
    ensures
        out@ == state_text(state),
{
    match state.code() {
        Some(code) => {
            let mut out = String::new();
            out.push(code);
            assert(out@ =~= seq![code]);
            out
        },
        None => String::from_str("None"),
    }
}

/// The line that shows one process by number and name.
pub open spec fn process_line(process: ProcessView) -> Seq<char> {
    "PID: "@ + decimal_digits(process.pid as nat) + " - "@ + process.name + "\n"@
}

/// The parts of the list of `processes`: one line for each.
pub open spec fn list_parts(processes: Seq<ProcessView>) -> Seq<Seq<char>> {
    Seq::new(processes.len(), |i: int| process_line(processes[i]))
}

/// Writes the list of processes, one line for each: the number, then the
/// name.
pub fn display_list(processes: &Vec<Process>) -> (out: String)
    ensures
        out@ == list_parts(processes.deep_view()).flatten(),
{
    let ghost all = processes.deep_view();
    let mut parts: Vec<String> = Vec::new();
    let mut i: usize = 0;
    while i < processes.len()
        invariant
            i <= processes.len(),
            all == processes.deep_view(),
            parts.len() == i,
            forall|k: int| 0 <= k < i ==> (#[trigger] parts@[k])@ == process_line(all[k]),
        decreases processes.len() - i,
    {
        let process = &processes[i];
        let mut line = String::from_str("PID: ");
        line.append(string_of(&digits_of(process.pid as u128)).as_str());
        line.append(" - ");
        line.append(process.name.as_str());
        line.append("\n");
        assert(line@ =~= process_line(process@));
        assert(all[i as int] == process@);
        parts.push(line);
        i += 1;
    }
    assert(parts.deep_view() =~= list_parts(all));
    join(&parts)
}

/// The parts of the basic record as text. On the console each of eight lines
/// ends with a line feed. In a file the virtual size is shown as well, and
/// the last line has no line feed.
pub open spec fn info_parts(info: ProcessInfoView, for_file: bool) -> Seq<Seq<char>> {
    seq![
        entry("PID: "@, decimal_digits(info.pid as nat), "\n"@),
        entry("Name: "@, info.name, "\n"@),
        entry("State: "@, state_text(info.state), "\n"@),
        entry("Parent PID: "@, decimal_digits(info.ppid as nat), "\n"@),
        entry("UID: "@, decimal_digits(info.uid as nat), ", "@),
        entry("GID: "@, decimal_digits(info.gid as nat), "\n"@),
        entry("Threads: "@, decimal_digits(info.threads as nat), "\n"@),
    ] + (if for_file {
        seq![
            entry("VmSize: "@, decimal_digits(info.vm_size as nat), "\n"@),
            entry("Memory (VmRSS): "@, decimal_digits(info.vm_rss as nat), " kB\n"@),
            entry("Command: "@, info.cmdline, ""@),
        ]
    } else {
        seq![
            entry("Memory (VmRSS): "@, decimal_digits(info.vm_rss as nat), " kB\n"@),
            entry("Command: "@, info.cmdline, "\n"@),
        ]
    })
}

/// Writes the basic record as text, for the console or for a file.
pub fn display_info(info: &ProcessInfo, for_file: bool) -> (out: String)
    ensures
        out@ == info_parts(info@, for_file).flatten(),
{
    let mut parts: Vec<String> = Vec::new();
    add_number(&mut parts, "PID: ", info.pid as u128, "\n");
    add_entry(&mut parts, "Name: ", info.name.as_str(), "\n");
    add_entry(&mut parts, "State: ", state_text_of(info.state).as_str(), "\n");
    add_number(&mut parts, "Parent PID: ", info.ppid as u128, "\n");
    add_number(&mut parts, "UID: ", info.uid as u128, ", ");
    add_number(&mut parts, "GID: ", info.gid as u128, "\n");
    add_number(&mut parts, "Threads: ", info.threads as u128, "\n");
    if for_file {
        add_number(&mut parts, "VmSize: ", info.vm_size as u128, "\n");
        add_number(&mut parts, "Memory (VmRSS): ", info.vm_rss as u128, " kB\n");
        add_entry(&mut parts, "Command: ", info.cmdline.as_str(), "");
    } else {
        add_number(&mut parts, "Memory (VmRSS): ", info.vm_rss as u128, " kB\n");
        add_entry(&mut parts, "Command: ", info.cmdline.as_str(), "\n");
    }
    assert(parts.deep_view() =~= info_parts(info@, for_file));
    join(&parts)
}

/// A size in kB as megabytes, rounded down.
pub open spec fn megabytes(kilobytes: nat) -> nat {
    kilobytes / 1024
}

/// The parts of the counts and totals as text.
pub open spec fn statistics_parts(stats: AggregateStatsView) -> Seq<Seq<char>> {
    seq![
        "===== Statistics =====\n"@,
        "--- Processes Status ---\n"@,
        entry("Total processes: "@, decimal_digits(stats.total), "\n"@),
        entry("Running: "@, decimal_digits(stats.running), "\n"@),
        entry("Sleeping: "@, decimal_digits(stats.sleeping), "\n"@),
        entry("Disk Sleep: "@, decimal_digits(stats.disk_sleep), "\n"@),
        entry("Zombie: "@, decimal_digits(stats.zombie), "\n"@),
        entry("Stopped: "@, decimal_digits(stats.stopped), "\n"@),
        entry("Idle: "@, decimal_digits(stats.idle), "\n"@),
        "--- Memory Usage ---\n"@,
        entry("Total RSS Memory: "@, decimal_digits(stats.total_rss_kb), " kB ("@),
        entry(""@, decimal_digits(megabytes(stats.total_rss_kb)), " MB)\n"@),
        entry("Total Virtual Memory: "@, decimal_digits(stats.total_virtual_kb), " kB ("@),
        entry(""@, decimal_digits(megabytes(stats.total_virtual_kb)), " MB)"@),
    ]
}

/// Writes the counts and totals as text: the counts by state, then the two
/// sums of memory, each in kB and in MB.
pub fn display_statistics(stats: &AggregateStats) -> (out: String)
    ensures
        out@ == statistics_parts(stats@).flatten(),
{
    let mut parts: Vec<String> = Vec::new();
    add_text(&mut parts, "===== Statistics =====\n");
    add_text(&mut parts, "--- Processes Status ---\n");
    add_number(&mut parts, "Total processes: ", stats.total as u128, "\n");
    add_number(&mut parts, "Running: ", stats.running as u128, "\n");
    add_number(&mut parts, "Sleeping: ", stats.sleeping as u128, "\n");
    add_number(&mut parts, "Disk Sleep: ", stats.disk_sleep as u128, "\n");
    add_number(&mut parts, "Zombie: ", stats.zombie as u128, "\n");
    add_number(&mut parts, "Stopped: ", stats.stopped as u128, "\n");
    add_number(&mut parts, "Idle: ", stats.idle as u128, "\n");
    add_text(&mut parts, "--- Memory Usage ---\n");
    add_number(&mut parts, "Total RSS Memory: ", stats.total_rss_kb, " kB (");
    add_number(&mut parts, "", stats.total_rss_kb / 1024, " MB)\n");
    add_number(&mut parts, "Total Virtual Memory: ", stats.total_virtual_kb, " kB (");
    add_number(&mut parts, "", stats.total_virtual_kb / 1024, " MB)");
    assert(parts.deep_view() =~= statistics_parts(stats@));
    join(&parts)
}

/// The two digits that write `n`, which is less than a hundred.
pub open spec fn two_digits(n: nat) -> Seq<char> {
    decimal_digits(n / 10) + decimal_digits(n % 10)
}

/// A share in hundredths of a percent, written in percent with two
/// decimals; `N/A` where there is no share.
pub open spec fn percent_text(share: Option<u128>) -> Seq<char> {
    match share {
        Some(hundredths) => decimal_digits(hundredths as nat / 100) + "."@ + two_digits(
            hundredths as nat % 100,
        ),
        None => "N/A"@,
    }
}

/// Writes a share in hundredths of a percent as a percentage with two
/// decimals.
pub fn percent_text_of(share: Option<u128>) -> (out: String)
    ensures
        out@ == percent_text(share),
{
    match share {
        Some(hundredths) => {
            let rest = hundredths % 100;
            let mut out = string_of(&digits_of(hundredths / 100));
            out.append(".");
            out.append(string_of(&digits_of(rest / 10)).as_str());
            out.append(string_of(&digits_of(rest % 10)).as_str());
            assert(out@ =~= percent_text(share));
            out
        },
        None => String::from_str("N/A"),
    }
}

/// The parts of the report of a followed process at one tick, as text.
pub open spec fn sample_parts(pid: usize, sample: LiveSampleView) -> Seq<Seq<char>> {
    seq![
        "---- Process Status ----\n"@,
        entry(" PID: "@, decimal_digits(pid as nat), " | "@),
        entry("Name: "@, sample.info.name, " | "@),
        entry("State: "@, state_text(sample.info.state), "\n"@),
        "--- Ressources Usage ---\n"@,
        entry(" CPU Usage: "@, percent_text(sample.cpu_percent), "% | "@),
        entry("Memory RSS:  "@, decimal_digits(sample.info.vm_rss as nat), " kB ("@),
        entry(""@, decimal_digits(megabytes(sample.info.vm_rss as nat)), " MB) | "@),
        entry("Memory Virt: "@, decimal_digits(sample.info.vm_size as nat), " kB ("@),
        entry(""@, decimal_digits(megabytes(sample.info.vm_size as nat)), " MB)\n"@),
        "--------- Time ---------\n"@,
        entry(" "@, sample.timestamp, "\n"@),
        "\nPress Ctrl+C to stop\n\n"@,
    ]
}

/// Writes the report of a followed process at one tick as text: who it is,
/// what it uses, and when.
pub fn display_sample(pid: usize, sample: &LiveSample) -> (out: String)
    ensures
        out@ == sample_parts(pid, sample@).flatten(),
{
    let mut parts: Vec<String> = Vec::new();
    add_text(&mut parts, "---- Process Status ----\n");
    add_number(&mut parts, " PID: ", pid as u128, " | ");
    add_entry(&mut parts, "Name: ", sample.info.name.as_str(), " | ");
    add_entry(&mut parts, "State: ", state_text_of(sample.info.state).as_str(), "\n");
    add_text(&mut parts, "--- Ressources Usage ---\n");
    add_entry(&mut parts, " CPU Usage: ", percent_text_of(sample.cpu_percent).as_str(), "% | ");
    add_number(&mut parts, "Memory RSS:  ", sample.info.vm_rss as u128, " kB (");
    add_number(&mut parts, "", (sample.info.vm_rss / 1024) as u128, " MB) | ");
    add_number(&mut parts, "Memory Virt: ", sample.info.vm_size as u128, " kB (");
    add_number(&mut parts, "", (sample.info.vm_size / 1024) as u128, " MB)\n");
    add_text(&mut parts, "--------- Time ---------\n");
    add_entry(&mut parts, " ", sample.timestamp.as_str(), "\n");
    add_text(&mut parts, "\nPress Ctrl+C to stop\n\n");
    assert(parts.deep_view() =~= sample_parts(pid, sample@));
    join(&parts)
}


/// The line that shows one item of a list with its index.
pub open spec fn numbered_line(index: nat, item: Seq<char>) -> Seq<char> {
    "  ["@ + decimal_digits(index) + "] "@ + item + "\n"@
}

/// The first `shown` of `items`, each on a line with its index, and after
/// them, where there are more items, a line that says how many more.
pub open spec fn excerpt(items: Seq<Seq<char>>, shown: nat) -> Seq<Seq<char>> {
    let n = if items.len() <= shown {
        items.len()
    } else {
        shown
    };
    Seq::new(n, |i: int| numbered_line(i as nat, items[i])) + (if items.len() > shown {
        seq![entry("  ... and "@, decimal_digits((items.len() - shown) as nat), " more\n"@)]
    } else {
        Seq::empty()
    })
}

/// Adds to `parts` the first `shown` of `items` and the count of the others.
pub(crate) fn add_excerpt(parts: &mut Vec<String>, items: &Vec<String>, shown: usize)
    ensures
        final(parts).deep_view() == old(parts).deep_view() + excerpt(
            items.deep_view(),
            shown as nat,
        ),
{
    let ghost before = parts.deep_view();
    let ghost all = items.deep_view();
    let n = if items.len() <= shown {
        items.len()
    } else {
        shown
    };
    let mut i: usize = 0;
    assert(parts.deep_view() =~= before + Seq::new(0, |k: int| numbered_line(k as nat, all[k])));
    while i < n
        invariant
            i <= n <= items.len(),
            all == items.deep_view(),
            parts.deep_view() == before + Seq::new(
                i as nat,
                |k: int| numbered_line(k as nat, all[k]),
            ),
        decreases n - i,
    {
        let ghost so_far = parts.deep_view();
        let mut line = String::from_str("  [");
        line.append(string_of(&digits_of(i as u128)).as_str());
        line.append("] ");
        line.append(items[i].as_str());
        line.append("\n");
        assert(line@ =~= numbered_line(i as nat, all[i as int]));
        parts.push(line);
        assert(parts.deep_view() =~= so_far.push(numbered_line(i as nat, all[i as int])));
        assert(parts.deep_view() =~= before + Seq::new(
            (i + 1) as nat,
            |k: int| numbered_line(k as nat, all[k]),
        ));
        i += 1;
    }
    if items.len() > shown {
        add_number(parts, "  ... and ", (items.len() - shown) as u128, " more\n");
    }
    assert(parts.deep_view() =~= before + excerpt(all, shown as nat));
}

/// The lines that say who the process is.
pub open spec fn identity_parts(info: ProcessInfoView) -> Seq<Seq<char>> {
    seq![
        "\n--- Basic Information ---\n"@,
        entry("PID: "@, decimal_digits(info.pid as nat), "\n"@),
        entry("Name: "@, info.name, "\n"@),
        entry("Command: "@, info.cmdline, "\n"@),
    ]
}

/// The lines that say how the process stands.
pub open spec fn status_parts(info: ProcessInfoView, scheduling: SchedulingView) -> Seq<
    Seq<char>,
> {
    seq![
        "\n--- Status ---\n"@,
        entry("State: "@, state_text(info.state), "\n"@),
        entry("Parent PID: "@, decimal_digits(info.ppid as nat), "\n"@),
        entry("UID: "@, decimal_digits(info.uid as nat), ", "@),
        entry("GID: "@, decimal_digits(info.gid as nat), "\n"@),
        entry("Threads: "@, decimal_digits(info.threads as nat), "\n"@),
        entry("Priority: "@, signed_digits(scheduling.prio as int), "\n"@),
        entry("Nice: "@, signed_digits(scheduling.nice as int), "\n"@),
    ]
}

/// The lines that give the processor times.
pub open spec fn cpu_parts(cpu: CpuTimes) -> Seq<Seq<char>> {
    seq![
        "\n--- CPU Times ---\n"@,
        entry("User time: "@, decimal_digits(cpu.utime as nat), " ticks\n"@),
        entry("System time: "@, decimal_digits(cpu.stime as nat), " ticks\n"@),
        entry("Start time: "@, decimal_digits(cpu.sttime as nat), " ticks\n"@),
        entry("Uptime: "@, decimal_digits(cpu.uptime as nat), " seconds\n"@),
    ]
}

/// The lines that give the memory figures.
pub open spec fn memory_parts(info: ProcessInfoView, memory: MemoryUsage) -> Seq<Seq<char>> {
    seq![
        "\n--- Memory ---\n"@,
        entry("VmSize: "@, decimal_digits(info.vm_size as nat), " kB\n"@),
        entry("VmRSS: "@, decimal_digits(info.vm_rss as nat), " kB\n"@),
        entry("VmData: "@, decimal_digits(memory.vm_data as nat), " kB\n"@),
        entry("VmStack: "@, decimal_digits(memory.vm_stack as nat), " kB\n"@),
        entry("VmExe: "@, decimal_digits(memory.vm_exe as nat), " kB\n"@),
        entry("VmLib: "@, decimal_digits(memory.vm_lib as nat), " kB\n"@),
        entry("VmSwap: "@, decimal_digits(memory.vm_swap as nat), " kB\n"@),
        entry("VmLocked: "@, decimal_digits(memory.vm_locked as nat), " kB\n"@),
        entry("VmHWM (Peak RSS): "@, decimal_digits(memory.vm_hwm as nat), " kB\n"@),
        entry("VmPeak: "@, decimal_digits(memory.vm_peak as nat), " kB\n"@),
    ]
}

/// The line of a counter that is always shown: its number, or a remark where
/// it could not be had.
pub open spec fn counter_or_remark(label: Seq<char>, counter: Option<u64>) -> Seq<char> {
    match counter {
        Some(n) => entry(label, decimal_digits(n as nat), "\n"@),
        None => entry(label, "N/A (no permission)"@, "\n"@),
    }
}

/// The line of a counter that is shown only where it could be had.
pub open spec fn counter_if_any(label: Seq<char>, counter: Option<u64>) -> Seq<Seq<char>> {
    match counter {
        Some(n) => seq![entry(label, decimal_digits(n as nat), "\n"@)],
        None => Seq::empty(),
    }
}

/// The lines that give the input and output counters.
pub open spec fn io_parts(io: IoCounters) -> Seq<Seq<char>> {
    seq![
        "\n--- I/O Statistics ---\n"@,
        counter_or_remark("Read bytes: "@, io.read_bytes),
        counter_or_remark("Write bytes: "@, io.write_bytes),
    ] + counter_if_any("Read syscalls: "@, io.read_count) + counter_if_any(
        "Write syscalls: "@,
        io.write_count,
    ) + counter_if_any("Cancelled write bytes: "@, io.cancelled_write_bytes)
}

/// The lines that describe the files: the count of descriptors, three
/// places, and the first ten of the open files where there are any.
pub open spec fn files_parts(files: FileContextView) -> Seq<Seq<char>> {
    seq![
        "\n--- Files ---\n"@,
        entry("Open file descriptors: "@, decimal_digits(files.fd_count as nat), "\n"@),
        entry("Current working directory: "@, files.cwd, "\n"@),
        entry("Executable: "@, files.exe, "\n"@),
        entry("Root directory: "@, files.root, "\n"@),
    ] + (if files.open_files.len() > 0 {
        seq!["Open files (first 10):\n"@] + excerpt(files.open_files, 10)
    } else {
        Seq::empty()
    })
}

/// The lines that give the resource limits.
pub open spec fn limits_parts(limits: Map<LimitKind, Seq<char>>) -> Seq<Seq<char>> {
    seq![
        "\n--- Resource Limits ---\n"@,
        entry("Max CPU time: "@, limits[LimitKind::CpuTime], "\n"@),
        entry("Max file size: "@, limits[LimitKind::FileSize], "\n"@),
        entry("Max data size: "@, limits[LimitKind::DataSize], "\n"@),
        entry("Max stack size: "@, limits[LimitKind::StackSize], "\n"@),
        entry("Max core file size: "@, limits[LimitKind::CoreFileSize], "\n"@),
        entry("Max resident set: "@, limits[LimitKind::ResidentSet], "\n"@),
        entry("Max processes: "@, limits[LimitKind::Processes], "\n"@),
        entry("Max open files: "@, limits[LimitKind::OpenFiles], "\n"@),
        entry("Max locked memory: "@, limits[LimitKind::LockedMemory], "\n"@),
        entry("Max address space: "@, limits[LimitKind::AddressSpace], "\n"@),
        entry("Max file locks: "@, limits[LimitKind::FileLocks], "\n"@),
        entry("Max pending signals: "@, limits[LimitKind::PendingSignals], "\n"@),
        entry("Max msgqueue size: "@, limits[LimitKind::MsgqueueSize], "\n"@),
        entry("Max nice priority: "@, limits[LimitKind::NicePrio], "\n"@),
        entry("Max realtime priority: "@, limits[LimitKind::RealtimePrio], "\n"@),
        entry("Max realtime timeout: "@, limits[LimitKind::RealtimeTimeout], "\n"@),
    ]
}

/// The lines that give the scheduling policy.
pub open spec fn scheduling_parts(scheduling: SchedulingView) -> Seq<Seq<char>> {
    seq![
        "\n--- Scheduling ---\n"@,
        entry("Policy: "@, scheduling.policy, "\n"@),
        entry("RT priority: "@, decimal_digits(scheduling.rt_prio as nat), "\n"@),
    ]
}

/// The line that counts the items of a list, or says that there are none.
pub open spec fn count_or_none(label: Seq<char>, items: Seq<Seq<char>>) -> Seq<char> {
    if items.len() > 0 {
        entry(label, decimal_digits(items.len()), "\n"@)
    } else {
        entry(label, "none"@, "\n"@)
    }
}

/// The lines that count the connections.
pub open spec fn network_parts(
    tcp: Seq<Seq<char>>,
    udp: Seq<Seq<char>>,
    unix: Seq<Seq<char>>,
) -> Seq<Seq<char>> {
    seq![
        "\n--- Network ---\n"@,
        count_or_none("TCP connections: "@, tcp),
        count_or_none("UDP connections: "@, udp),
        count_or_none("Unix sockets: "@, unix),
    ]
}

/// The lines that show the environment: how many variables there are, and
/// the first five of them.
pub open spec fn environment_parts(environment: Seq<Seq<char>>) -> Seq<Seq<char>> {
    seq!["\n--- Environment Variables ---\n"@] + (if environment.len() > 0 {
        seq![entry("Count: "@, decimal_digits(environment.len()), "\n"@), "First 5:\n"@] + excerpt(
            environment,
            5,
        )
    } else {
        seq!["No environment variables available\n"@]
    })
}

/// The lines that show the control groups, all of them.
pub open spec fn cgroup_parts(cgroups: Seq<Seq<char>>) -> Seq<Seq<char>> {
    seq!["\n--- Control Groups ---\n"@] + (if cgroups.len() > 0 {
        Seq::new(cgroups.len(), |i: int| entry("  "@, cgroups[i], "\n"@))
    } else {
        seq!["No cgroup information available\n"@]
    })
}

/// The lines that count the NUMA maps.
pub open spec fn numa_parts(numa_maps: Seq<Seq<char>>) -> Seq<Seq<char>> {
    seq![
        "\n--- NUMA Maps ---\n"@,
        if numa_maps.len() > 0 {
            entry("Count: "@, decimal_digits(numa_maps.len()), " entries\n"@)
        } else {
            "No NUMA maps available\n"@
        },
    ]
}

/// The text of `value`, or `N/A` where there is none.
pub open spec fn text_or_na(value: Option<Seq<char>>) -> Seq<char> {
    match value {
        Some(text) => text,
        None => "N/A"@,
    }
}

/// The lines that give the system call and the wait channel.
pub open spec fn misc_parts(syscall: Option<Seq<char>>, wchan: Option<Seq<char>>) -> Seq<
    Seq<char>,
> {
    seq![
        "\n--- Misc ---\n"@,
        entry("Current syscall: "@, text_or_na(syscall), "\n"@),
        entry("Wait channel: "@, text_or_na(wchan), "\n"@),
    ]
}

/// The parts of the full record as text, section after section.
pub open spec fn all_parts(info: FullProcessInfoView) -> Seq<Seq<char>> {
    identity_parts(info.basic) + status_parts(info.basic, info.scheduling) + cpu_parts(info.cpu)
        + memory_parts(info.basic, info.memory) + io_parts(info.io) + files_parts(info.files)
        + limits_parts(info.limits) + scheduling_parts(info.scheduling) + network_parts(
        info.tcp_connections,
        info.udp_connections,
        info.unix_sockets,
    ) + environment_parts(info.environment) + cgroup_parts(info.cgroups) + numa_parts(
        info.numa_maps,
    ) + misc_parts(info.syscall, info.wchan)
}

/// Adds the lines that say who the process is.
fn add_identity(parts: &mut Vec<String>, info: &ProcessInfo)
    ensures
        final(parts).deep_view() == old(parts).deep_view() + identity_parts(info@),
{
    add_text(parts, "\n--- Basic Information ---\n");
    add_number(parts, "PID: ", info.pid as u128, "\n");
    add_entry(parts, "Name: ", info.name.as_str(), "\n");
    add_entry(parts, "Command: ", info.cmdline.as_str(), "\n");
    assert(parts.deep_view() =~= old(parts).deep_view() + identity_parts(info@));
}

/// Adds the lines that say how the process stands.
fn add_status(parts: &mut Vec<String>, info: &ProcessInfo, scheduling: &Scheduling)
    ensures
        final(parts).deep_view() == old(parts).deep_view() + status_parts(info@, scheduling@),
{
    add_text(parts, "\n--- Status ---\n");
    add_entry(parts, "State: ", state_text_of(info.state).as_str(), "\n");
    add_number(parts, "Parent PID: ", info.ppid as u128, "\n");
    add_number(parts, "UID: ", info.uid as u128, ", ");
    add_number(parts, "GID: ", info.gid as u128, "\n");
    add_number(parts, "Threads: ", info.threads as u128, "\n");
    add_signed(parts, "Priority: ", scheduling.prio, "\n");
    add_signed(parts, "Nice: ", scheduling.nice, "\n");
    assert(parts.deep_view() =~= old(parts).deep_view() + status_parts(info@, scheduling@));
}

/// Adds the lines that give the processor times.
fn add_cpu(parts: &mut Vec<String>, cpu: &CpuTimes)
    ensures
        final(parts).deep_view() == old(parts).deep_view() + cpu_parts(*cpu),
{
    add_text(parts, "\n--- CPU Times ---\n");
    add_number(parts, "User time: ", cpu.utime as u128, " ticks\n");
    add_number(parts, "System time: ", cpu.stime as u128, " ticks\n");
    add_number(parts, "Start time: ", cpu.sttime as u128, " ticks\n");
    add_number(parts, "Uptime: ", cpu.uptime as u128, " seconds\n");
    assert(parts.deep_view() =~= old(parts).deep_view() + cpu_parts(*cpu));
}

/// Adds the lines that give the memory figures.
fn add_memory(parts: &mut Vec<String>, info: &ProcessInfo, memory: &MemoryUsage)
    ensures
        final(parts).deep_view() == old(parts).deep_view() + memory_parts(info@, *memory),
{
    add_text(parts, "\n--- Memory ---\n");
    add_number(parts, "VmSize: ", info.vm_size as u128, " kB\n");
    add_number(parts, "VmRSS: ", info.vm_rss as u128, " kB\n");
    add_number(parts, "VmData: ", memory.vm_data as u128, " kB\n");
    add_number(parts, "VmStack: ", memory.vm_stack as u128, " kB\n");
    add_number(parts, "VmExe: ", memory.vm_exe as u128, " kB\n");
    add_number(parts, "VmLib: ", memory.vm_lib as u128, " kB\n");
    add_number(parts, "VmSwap: ", memory.vm_swap as u128, " kB\n");
    add_number(parts, "VmLocked: ", memory.vm_locked as u128, " kB\n");
    add_number(parts, "VmHWM (Peak RSS): ", memory.vm_hwm as u128, " kB\n");
    add_number(parts, "VmPeak: ", memory.vm_peak as u128, " kB\n");
    assert(parts.deep_view() =~= old(parts).deep_view() + memory_parts(info@, *memory));
}

/// Adds the line of a counter that is always shown.
fn add_counter_or_remark(parts: &mut Vec<String>, label: &str, counter: Option<u64>)
    ensures
        final(parts).deep_view() == old(parts).deep_view().push(
            counter_or_remark(label@, counter),
        ),
{
    match counter {
        Some(n) => add_number(parts, label, n as u128, "\n"),
        None => add_entry(parts, label, "N/A (no permission)", "\n"),
    }
}

/// Adds the line of a counter, if the counter could be had.
fn add_counter_if_any(parts: &mut Vec<String>, label: &str, counter: Option<u64>)
    ensures
        final(parts).deep_view() == old(parts).deep_view() + counter_if_any(label@, counter),
{
    match counter {
        Some(n) => {
            add_number(parts, label, n as u128, "\n");
        },
        None => {},
    }
    assert(parts.deep_view() =~= old(parts).deep_view() + counter_if_any(label@, counter));
}

/// Adds the lines that give the input and output counters.
fn add_io(parts: &mut Vec<String>, io: &IoCounters)
    ensures
        final(parts).deep_view() == old(parts).deep_view() + io_parts(*io),
{
    add_text(parts, "\n--- I/O Statistics ---\n");
    add_counter_or_remark(parts, "Read bytes: ", io.read_bytes);
    add_counter_or_remark(parts, "Write bytes: ", io.write_bytes);
    add_counter_if_any(parts, "Read syscalls: ", io.read_count);
    add_counter_if_any(parts, "Write syscalls: ", io.write_count);
    add_counter_if_any(parts, "Cancelled write bytes: ", io.cancelled_write_bytes);
    assert(parts.deep_view() =~= old(parts).deep_view() + io_parts(*io));
}

/// Adds the lines that describe the files.
fn add_files(parts: &mut Vec<String>, files: &FileContext)
    ensures
        final(parts).deep_view() == old(parts).deep_view() + files_parts(files@),
{
    add_text(parts, "\n--- Files ---\n");
    add_number(parts, "Open file descriptors: ", files.fd_count as u128, "\n");
    add_entry(parts, "Current working directory: ", files.cwd.as_str(), "\n");
    add_entry(parts, "Executable: ", files.exe.as_str(), "\n");
    add_entry(parts, "Root directory: ", files.root.as_str(), "\n");
    if files.open_files.len() > 0 {
        add_text(parts, "Open files (first 10):\n");
        add_excerpt(parts, &files.open_files, 10);
    }
    assert(parts.deep_view() =~= old(parts).deep_view() + files_parts(files@));
}

/// Adds the lines that give the resource limits.
fn add_limits(parts: &mut Vec<String>, limits: &ResourceLimits)
    ensures
        final(parts).deep_view() == old(parts).deep_view() + limits_parts(limits@),
{
    add_text(parts, "\n--- Resource Limits ---\n");
    add_entry(parts, "Max CPU time: ", limits.get(LimitKind::CpuTime).as_str(), "\n");
    add_entry(parts, "Max file size: ", limits.get(LimitKind::FileSize).as_str(), "\n");
    add_entry(parts, "Max data size: ", limits.get(LimitKind::DataSize).as_str(), "\n");
    add_entry(parts, "Max stack size: ", limits.get(LimitKind::StackSize).as_str(), "\n");
    add_entry(parts, "Max core file size: ", limits.get(LimitKind::CoreFileSize).as_str(), "\n");
    add_entry(parts, "Max resident set: ", limits.get(LimitKind::ResidentSet).as_str(), "\n");
    add_entry(parts, "Max processes: ", limits.get(LimitKind::Processes).as_str(), "\n");
    add_entry(parts, "Max open files: ", limits.get(LimitKind::OpenFiles).as_str(), "\n");
    add_entry(parts, "Max locked memory: ", limits.get(LimitKind::LockedMemory).as_str(), "\n");
    add_entry(parts, "Max address space: ", limits.get(LimitKind::AddressSpace).as_str(), "\n");
    add_entry(parts, "Max file locks: ", limits.get(LimitKind::FileLocks).as_str(), "\n");
    add_entry(
        parts,
        "Max pending signals: ",
        limits.get(LimitKind::PendingSignals).as_str(),
        "\n",
    );
    add_entry(parts, "Max msgqueue size: ", limits.get(LimitKind::MsgqueueSize).as_str(), "\n");
    add_entry(parts, "Max nice priority: ", limits.get(LimitKind::NicePrio).as_str(), "\n");
    add_entry(
        parts,
        "Max realtime priority: ",
        limits.get(LimitKind::RealtimePrio).as_str(),
        "\n",
    );
    add_entry(
        parts,
        "Max realtime timeout: ",
        limits.get(LimitKind::RealtimeTimeout).as_str(),
        "\n",
    );
    assert(parts.deep_view() =~= old(parts).deep_view() + limits_parts(limits@));
}

/// Adds the lines that give the scheduling policy.
fn add_scheduling(parts: &mut Vec<String>, scheduling: &Scheduling)
    ensures
        final(parts).deep_view() == old(parts).deep_view() + scheduling_parts(scheduling@),
{
    add_text(parts, "\n--- Scheduling ---\n");
    add_entry(parts, "Policy: ", scheduling.policy.as_str(), "\n");
    add_number(parts, "RT priority: ", scheduling.rt_prio as u128, "\n");
    assert(parts.deep_view() =~= old(parts).deep_view() + scheduling_parts(scheduling@));
}

/// Adds the line that counts the items of a list.
fn add_count_or_none(parts: &mut Vec<String>, label: &str, items: &Vec<String>)
    ensures
        final(parts).deep_view() == old(parts).deep_view().push(
            count_or_none(label@, items.deep_view()),
        ),
{
    if items.len() > 0 {
        add_number(parts, label, items.len() as u128, "\n");
    } else {
        add_entry(parts, label, "none", "\n");
    }
}

/// Adds the lines that count the connections.
fn add_network(parts: &mut Vec<String>, tcp: &Vec<String>, udp: &Vec<String>, unix: &Vec<String>)
    ensures
        final(parts).deep_view() == old(parts).deep_view() + network_parts(
            tcp.deep_view(),
            udp.deep_view(),
            unix.deep_view(),
        ),
{
    add_text(parts, "\n--- Network ---\n");
    add_count_or_none(parts, "TCP connections: ", tcp);
    add_count_or_none(parts, "UDP connections: ", udp);
    add_count_or_none(parts, "Unix sockets: ", unix);
    assert(parts.deep_view() =~= old(parts).deep_view() + network_parts(
        tcp.deep_view(),
        udp.deep_view(),
        unix.deep_view(),
    ));
}

/// Adds the lines that show the environment.
fn add_environment(parts: &mut Vec<String>, environment: &Vec<String>)
    ensures
        final(parts).deep_view() == old(parts).deep_view() + environment_parts(
            environment.deep_view(),
        ),
{
    add_text(parts, "\n--- Environment Variables ---\n");
    if environment.len() > 0 {
        add_number(parts, "Count: ", environment.len() as u128, "\n");
        add_text(parts, "First 5:\n");
        add_excerpt(parts, environment, 5);
    } else {
        add_text(parts, "No environment variables available\n");
    }
    assert(parts.deep_view() =~= old(parts).deep_view() + environment_parts(
        environment.deep_view(),
    ));
}

/// Adds the lines that show the control groups.
fn add_cgroups(parts: &mut Vec<String>, cgroups: &Vec<String>)
    ensures
        final(parts).deep_view() == old(parts).deep_view() + cgroup_parts(cgroups.deep_view()),
{
    let ghost all = cgroups.deep_view();
    add_text(parts, "\n--- Control Groups ---\n");
    let ghost before = parts.deep_view();
    if cgroups.len() > 0 {
        let mut i: usize = 0;
        assert(parts.deep_view() =~= before + Seq::new(0, |k: int| entry("  "@, all[k], "\n"@)));
        while i < cgroups.len()
            invariant
                i <= cgroups.len(),
                all == cgroups.deep_view(),
                parts.deep_view() == before + Seq::new(
                    i as nat,
                    |k: int| entry("  "@, all[k], "\n"@),
                ),
            decreases cgroups.len() - i,
        {
            add_entry(parts, "  ", cgroups[i].as_str(), "\n");
            assert(parts.deep_view() =~= before + Seq::new(
                (i + 1) as nat,
                |k: int| entry("  "@, all[k], "\n"@),
            ));
            i += 1;
        }
    } else {
        add_text(parts, "No cgroup information available\n");
    }
    assert(parts.deep_view() =~= old(parts).deep_view() + cgroup_parts(all));
}

/// Adds the lines that count the NUMA maps.
fn add_numa(parts: &mut Vec<String>, numa_maps: &Vec<String>)
    ensures
        final(parts).deep_view() == old(parts).deep_view() + numa_parts(numa_maps.deep_view()),
{
    add_text(parts, "\n--- NUMA Maps ---\n");
    if numa_maps.len() > 0 {
        add_number(parts, "Count: ", numa_maps.len() as u128, " entries\n");
    } else {
        add_text(parts, "No NUMA maps available\n");
    }
    assert(parts.deep_view() =~= old(parts).deep_view() + numa_parts(numa_maps.deep_view()));
}

/// The text of `value`, or `N/A` where there is none.
fn or_na(value: &Option<String>) -> (out: &str)
    ensures
        out@ == text_or_na(text_if_any(*value)),
{
    match value {
        Some(text) => text.as_str(),
        None => "N/A",
    }
}

/// Adds the lines that give the system call and the wait channel.
fn add_misc(parts: &mut Vec<String>, syscall: &Option<String>, wchan: &Option<String>)
    ensures
        final(parts).deep_view() == old(parts).deep_view() + misc_parts(
            text_if_any(*syscall),
            text_if_any(*wchan),
        ),
{
    add_text(parts, "\n--- Misc ---\n");
    add_entry(parts, "Current syscall: ", or_na(syscall), "\n");
    add_entry(parts, "Wait channel: ", or_na(wchan), "\n");
    assert(parts.deep_view() =~= old(parts).deep_view() + misc_parts(
        text_if_any(*syscall),
        text_if_any(*wchan),
    ));
}

/// Writes the full record as text, section after section: who the process
/// is, how it stands, its processor times, its memory, its input and output,
/// its files, its limits, its scheduling, its connections, its environment,
/// its control groups, its NUMA maps, and what it waits for.
///
/// Of the open files the first ten are shown, of the environment the first
/// five, each with the count of those left out.
pub fn display_all(info: &FullProcessInfo) -> (out: String)
    ensures
        out@ == all_parts(info@).flatten(),
{
    let mut parts: Vec<String> = Vec::new();
    assert(parts.deep_view() =~= Seq::<Seq<char>>::empty());
    add_identity(&mut parts, &info.basic);
    add_status(&mut parts, &info.basic, &info.scheduling);
    add_cpu(&mut parts, &info.cpu);
    add_memory(&mut parts, &info.basic, &info.memory);
    add_io(&mut parts, &info.io);
    add_files(&mut parts, &info.files);
    add_limits(&mut parts, &info.limits);
    add_scheduling(&mut parts, &info.scheduling);
    add_network(&mut parts, &info.tcp_connections, &info.udp_connections, &info.unix_sockets);
    add_environment(&mut parts, &info.environment);
    add_cgroups(&mut parts, &info.cgroups);
    add_numa(&mut parts, &info.numa_maps);
    add_misc(&mut parts, &info.syscall, &info.wchan);
    assert(parts.deep_view() =~= all_parts(info@));
    join(&parts)
}

} // verus!
