//! Reading the record of one process from the text of its pseudo-files.

use crate::limits::{limits_of, parse_limits};
use crate::struct_proc::{
    state_of, text_if_any, BasicFiles, CpuTimes, FileContext, FileContextView, FullFiles,
    FullProcessInfo, FullProcessInfoView, IoCounters, MemoryUsage, ProcError, Process,
    ProcessInfo, ProcessInfoView, ProcessState, ProcessView, Scheduling, SchedulingView,
};
use crate::table::{
    find_value, lemma_chars_deep_view, number_if_any, number_or_zero, parse_rows, rows,
    u32_value, u64_if_any, usize_value, value_of, Table,
};
use crate::text::{
    chars_of, decimal_digits, fields, lemma_decimal_digits, lines, parse_signed,
    parse_unsigned, read_i32, read_u64, read_usize, split, split_lines, string_of, tokens, trim,
    trimmed, Separator,
};
use vstd::prelude::*;

verus! {

/// `raw` with a space in place of each NUL.
pub open spec fn spaced(raw: Seq<char>) -> Seq<char> {
    Seq::new(
        raw.len(),
        |i: int|
            if raw[i] == '\0' {
                ' '
            } else {
                raw[i]
            },
    )
}

/// The command line that the NUL-separated text `raw` holds: its arguments
/// separated by spaces, with no whitespace at either end.
pub open spec fn command_line(raw: Seq<char>) -> Seq<char> {
    trim(spaced(raw))
}

/// The text of `file`, or the empty text where it could not be read.
pub open spec fn text_or_empty(file: Option<String>) -> Seq<char> {
    match file {
        Some(s) => s@,
        None => Seq::empty(),
    }
}

/// The basic record of process `pid`, given the text of its name file, the
/// rows of its status block and the text of its command line.
pub open spec fn basic_info_of_rows(
    pid: usize,
    comm: Seq<char>,
    t: Seq<Seq<Seq<char>>>,
    cmdline: Seq<char>,
) -> ProcessInfoView {
    ProcessInfoView {
        pid: pid,
        name: trim(comm),
        state: state_of(value_of(t, "State:"@)),
        ppid: number_or_zero(value_of(t, "PPid:"@), usize::MAX as int) as usize,
        uid: number_or_zero(value_of(t, "Uid:"@), u32::MAX as int) as u32,
        gid: number_or_zero(value_of(t, "Gid:"@), u32::MAX as int) as u32,
        threads: number_or_zero(value_of(t, "Threads:"@), usize::MAX as int) as usize,
        vm_size: number_or_zero(value_of(t, "VmSize:"@), usize::MAX as int) as usize,
        vm_rss: number_or_zero(value_of(t, "VmRSS:"@), usize::MAX as int) as usize,
        cmdline: command_line(cmdline),
    }
}

/// The basic record of process `pid`, given the text of its name file, of
/// its status block and of its command line.
///
/// The name is the name file's text without the whitespace at its ends. Each
/// other field but the command line comes from the last line of the status
/// block that begins with the field's key: the state from the code that
/// follows the key, a number from the token that follows it, zero where that
/// token is missing or writes no number of the field's type.
pub open spec fn basic_info(
    pid: usize,
    comm: Seq<char>,
    status: Seq<char>,
    cmdline: Seq<char>,
) -> ProcessInfoView {
    basic_info_of_rows(pid, comm, rows(status), cmdline)
}

/// The failure that stops the reading of a record: that of the name file,
/// else that of the status block.
pub open spec fn first_failure(
    comm: Result<String, ProcError>,
    status: Result<String, ProcError>,
) -> Option<ProcError> {
    match comm {
        Err(e) => Some(e),
        Ok(_) => match status {
            Err(e) => Some(e),
            Ok(_) => None,
        },
    }
}

/// Puts a space in place of each NUL of `raw`.
fn with_spaces(raw: &Vec<char>) -> (out: Vec<char>)
    ensures
        out@ == spaced(raw@),
{
    let mut out: Vec<char> = Vec::new();
    let mut i: usize = 0;
    while i < raw.len()
        invariant
            i <= raw.len(),
            out.len() == i,
            forall|k: int| 0 <= k < i ==> out@[k] == spaced(raw@)[k],
        decreases raw.len() - i,
    {
        let c = raw[i];
        out.push(if c == '\0' {
            ' '
        } else {
            c
        });
        i += 1;
    }
    assert(out@ =~= spaced(raw@));
    out
}

/// The state that the status rows `table` report.
fn state_value(table: &Table) -> (out: ProcessState)
    ensures
        out == state_of(value_of(table@, "State:"@)),
{
    match find_value(table, "State:") {
        Some(code) => ProcessState::from_code(code),
        None => ProcessState::Unknown,
    }
}

/// Builds the basic record of process `pid` from the text of its name file,
/// the rows of its status block and the text of its command line.
pub fn info_from_rows(
    pid: usize,
    comm: &str,
    table: &Table,
    cmdline: &str,
) -> (info: ProcessInfo)
    ensures
        info@ == basic_info_of_rows(pid, comm@, table@, cmdline@),
{
    let name = string_of(&trimmed(&chars_of(comm)));
    let command = string_of(&trimmed(&with_spaces(&chars_of(cmdline))));
    ProcessInfo {
        pid,
        name,
        state: state_value(table),
        ppid: usize_value(table, "PPid:"),
        uid: u32_value(table, "Uid:"),
        gid: u32_value(table, "Gid:"),
        threads: usize_value(table, "Threads:"),
        vm_size: usize_value(table, "VmSize:"),
        vm_rss: usize_value(table, "VmRSS:"),
        cmdline: command,
    }
}

/// Builds the basic record of process `pid` from the text of its name file,
/// of its status block and of its command line.
pub fn parse_info(pid: usize, comm: &str, status: &str, cmdline: &str) -> (info: ProcessInfo)
    ensures
        info@ == basic_info(pid, comm@, status@, cmdline@),
        info.pid == pid,
{
    let table = parse_rows(status);
    info_from_rows(pid, comm, &table, cmdline)
}

/// The text of `file`, or the empty text where it could not be read.
fn or_empty(file: &Option<String>) -> (out: &str)
    ensures
        out@ == text_or_empty(*file),
{
    match file {
        Some(s) => s.as_str(),
        None => {
            proof {
                reveal_strlit("");
            }
            assert(""@ =~= Seq::<char>::empty());
            ""
        },
    }
}

/// Reads the basic record of process `pid` from what was read of its files.
///
/// The name file and the status block are needed: the failure of the first
/// of them that failed is returned. A command line that could not be read
/// counts as empty. The record carries `pid` as given.
pub fn read_info(pid: usize, files: &BasicFiles) -> (out: Result<ProcessInfo, ProcError>)
    ensures
        out matches Ok(info) ==> {
            &&& first_failure(files.comm, files.status) is None
            &&& info@ == basic_info(
                pid,
                files.comm->Ok_0@,
                files.status->Ok_0@,
                text_or_empty(files.cmdline),
            )
            &&& info.pid == pid
        },
        out matches Err(e) ==> first_failure(files.comm, files.status) == Some(e),
        files.comm matches Err(ProcError::NotFound) ==> out matches Err(ProcError::NotFound),
{
    let comm = match &files.comm {
        Ok(s) => s,
        Err(e) => {
            return Err(*e);
        },
    };
    let status = match &files.status {
        Ok(s) => s,
        Err(e) => {
            return Err(*e);
        },
    };
    Ok(parse_info(pid, comm.as_str(), status.as_str(), or_empty(&files.cmdline)))
}

/// The memory figures that the rows `t` of a status block give.
pub open spec fn memory_usage(t: Seq<Seq<Seq<char>>>) -> MemoryUsage {
    MemoryUsage {
        vm_data: number_or_zero(value_of(t, "VmData:"@), usize::MAX as int) as usize,
        vm_stack: number_or_zero(value_of(t, "VmStk:"@), usize::MAX as int) as usize,
        vm_exe: number_or_zero(value_of(t, "VmExe:"@), usize::MAX as int) as usize,
        vm_lib: number_or_zero(value_of(t, "VmLib:"@), usize::MAX as int) as usize,
        vm_swap: number_or_zero(value_of(t, "VmSwap:"@), usize::MAX as int) as usize,
        vm_locked: number_or_zero(value_of(t, "VmLck:"@), usize::MAX as int) as usize,
        vm_hwm: number_or_zero(value_of(t, "VmHWM:"@), usize::MAX as int) as usize,
        vm_peak: number_or_zero(value_of(t, "VmPeak:"@), usize::MAX as int) as usize,
    }
}

/// Reads the memory figures out of the rows of a status block.
pub fn parse_memory(table: &Table) -> (out: MemoryUsage)
    ensures
        out == memory_usage(table@),
{
    MemoryUsage {
        vm_data: usize_value(table, "VmData:"),
        vm_stack: usize_value(table, "VmStk:"),
        vm_exe: usize_value(table, "VmExe:"),
        vm_lib: usize_value(table, "VmLib:"),
        vm_swap: usize_value(table, "VmSwap:"),
        vm_locked: usize_value(table, "VmLck:"),
        vm_hwm: usize_value(table, "VmHWM:"),
        vm_peak: usize_value(table, "VmPeak:"),
    }
}

/// The unsigned number up to `max` that the token of index `index` writes;
/// zero where there is no such token or it writes no such number.
pub open spec fn token_number(toks: Seq<Seq<char>>, index: int, max: int) -> int {
    if 0 <= index < toks.len() {
        match parse_unsigned(toks[index], max) {
            Some(n) => n,
            None => 0,
        }
    } else {
        0
    }
}

/// The signed number from `min` to `max` that the token of index `index`
/// writes; zero where there is no such token or it writes no such number.
pub open spec fn token_signed(toks: Seq<Seq<char>>, index: int, min: int, max: int) -> int {
    if 0 <= index < toks.len() {
        match parse_signed(toks[index], min, max) {
            Some(n) => n,
            None => 0,
        }
    } else {
        0
    }
}

/// The `u64` that the token of index `index` writes, or zero.
pub(crate) fn u64_token(toks: &Vec<Vec<char>>, index: usize) -> (n: u64)
    ensures
        n == token_number(toks.deep_view(), index as int, u64::MAX as int),
{
    if index < toks.len() {
        proof {
            lemma_chars_deep_view(toks@[index as int]);
            assert(toks.deep_view()[index as int] == toks@[index as int]@);
        }
        match read_u64(&toks[index]) {
            Some(n) => n,
            None => 0,
        }
    } else {
        0
    }
}

/// The `i32` that the token of index `index` writes, or zero.
fn i32_token(toks: &Vec<Vec<char>>, index: usize) -> (n: i32)
    ensures
        n == token_signed(toks.deep_view(), index as int, i32::MIN as int, i32::MAX as int),
{
    if index < toks.len() {
        proof {
            lemma_chars_deep_view(toks@[index as int]);
            assert(toks.deep_view()[index as int] == toks@[index as int]@);
        }
        match read_i32(&toks[index]) {
            Some(n) => n,
            None => 0,
        }
    } else {
        0
    }
}

/// The processor times that the tokens `toks` of the one-line statistics
/// give, beside the time `uptime` that the system has been up.
pub open spec fn cpu_times(toks: Seq<Seq<char>>, uptime: u64) -> CpuTimes {
    CpuTimes {
        utime: token_number(toks, 13, u64::MAX as int) as u64,
        stime: token_number(toks, 14, u64::MAX as int) as u64,
        sttime: token_number(toks, 21, u64::MAX as int) as u64,
        uptime: uptime,
    }
}

/// The scheduling that the tokens `toks` of the one-line statistics give.
/// The policy and the real-time priority are not read.
pub open spec fn scheduling(toks: Seq<Seq<char>>) -> SchedulingView {
    SchedulingView {
        prio: token_signed(toks, 17, i32::MIN as int, i32::MAX as int) as i32,
        nice: token_signed(toks, 18, i32::MIN as int, i32::MAX as int) as i32,
        policy: "SCHED_OTHER"@,
        rt_prio: 0,
    }
}

/// Reads the processor times out of the tokens of the one-line statistics.
pub fn parse_cpu(toks: &Vec<Vec<char>>, uptime: u64) -> (out: CpuTimes)
    ensures
        out == cpu_times(toks.deep_view(), uptime),
{
    CpuTimes {
        utime: u64_token(toks, 13),
        stime: u64_token(toks, 14),
        sttime: u64_token(toks, 21),
        uptime,
    }
}

/// Reads the scheduling out of the tokens of the one-line statistics.
pub fn parse_scheduling(toks: &Vec<Vec<char>>) -> (out: Scheduling)
    ensures
        out@ == scheduling(toks.deep_view()),
{
    Scheduling {
        prio: i32_token(toks, 17),
        nice: i32_token(toks, 18),
        policy: string_of(&chars_of("SCHED_OTHER")),
        rt_prio: 0,
    }
}

/// The counter that follows `key` in the rows `t`, if any.
pub open spec fn counter(t: Seq<Seq<Seq<char>>>, key: Seq<char>) -> Option<u64> {
    match number_if_any(value_of(t, key), u64::MAX as int) {
        Some(n) => Some(n as u64),
        None => None,
    }
}

/// The input and output counters that the rows `t` give. A counter comes
/// from the last row that begins with its key, and is `None` where there is
/// no such row or where no `u64` follows the key.
pub open spec fn io_counters(t: Seq<Seq<Seq<char>>>) -> IoCounters {
    IoCounters {
        read_bytes: counter(t, "read_bytes:"@),
        write_bytes: counter(t, "write_bytes:"@),
        read_count: counter(t, "syscr:"@),
        write_count: counter(t, "syscw:"@),
        cancelled_write_bytes: counter(t, "cancelled_write_bytes:"@),
    }
}

/// Reads the input and output counters out of the rows of the counters'
/// file.
pub fn parse_io(table: &Table) -> (out: IoCounters)
    ensures
        out == io_counters(table@),
{
    IoCounters {
        read_bytes: u64_if_any(table, "read_bytes:"),
        write_bytes: u64_if_any(table, "write_bytes:"),
        read_count: u64_if_any(table, "syscr:"),
        write_count: u64_if_any(table, "syscw:"),
        cancelled_write_bytes: u64_if_any(table, "cancelled_write_bytes:"),
    }
}

/// What the descriptors `entries` point to, leaving out those that could not
/// be resolved and keeping the order of the others.
pub open spec fn resolved(entries: Seq<Option<String>>) -> Seq<Seq<char>> {
    entries.filter_map(|e: Option<String>| text_if_any(e))
}

/// The text of `link`, or `N/A` where it could not be resolved.
pub open spec fn target_or_na(link: Option<String>) -> Seq<char> {
    match link {
        Some(s) => s@,
        None => "N/A"@,
    }
}

/// The files of a process, given its descriptors and what its working
/// directory, its executable and its root directory point to.
pub open spec fn file_context(
    fd: Option<Vec<Option<String>>>,
    cwd: Option<String>,
    exe: Option<String>,
    root: Option<String>,
) -> FileContextView {
    FileContextView {
        fd_count: match fd {
            Some(entries) => entries.len(),
            None => 0,
        },
        open_files: match fd {
            Some(entries) => resolved(entries@),
            None => Seq::empty(),
        },
        cwd: target_or_na(cwd),
        exe: target_or_na(exe),
        root: target_or_na(root),
    }
}

/// Resolving keeps at most as many items as there are descriptors.
pub proof fn lemma_resolved_len(entries: Seq<Option<String>>)
    ensures
        resolved(entries).len() <= entries.len(),
    decreases entries.len(),
{
    if entries.len() > 0 {
        lemma_resolved_len(entries.drop_last());
    }
}

/// Collects what the descriptors `entries` point to.
fn open_targets(entries: &Vec<Option<String>>) -> (out: Vec<String>)
    ensures
        out.deep_view() == resolved(entries@),
        out.len() <= entries.len(),
{
    let ghost f = |e: Option<String>| text_if_any(e);
    let mut out: Vec<String> = Vec::new();
    let mut i: usize = 0;
    assert(out.deep_view() =~= entries@.take(0).filter_map(f));
    while i < entries.len()
        invariant
            i <= entries.len(),
            f == |e: Option<String>| text_if_any(e),
            out.deep_view() == entries@.take(i as int).filter_map(f),
        decreases entries.len() - i,
    {
        let ghost before = out.deep_view();
        proof {
            entries@.lemma_filter_map_take_succ(f, i as int);
        }
        match &entries[i] {
            Some(target) => {
                out.push(target.clone());
                assert(out.deep_view() =~= before + seq![target@]);
            },
            None => {},
        }
        i += 1;
    }
    assert(entries@.take(i as int) =~= entries@);
    proof {
        lemma_resolved_len(entries@);
    }
    out
}

/// The text of `link`, or `N/A` where it could not be resolved.
fn link_target(link: &Option<String>) -> (out: String)
    ensures
        out@ == target_or_na(*link),
{
    match link {
        Some(s) => s.clone(),
        None => string_of(&chars_of("N/A")),
    }
}

/// Describes the files of a process. The count is that of all descriptors;
/// the list holds only those that could be resolved.
pub fn parse_files(
    fd: &Option<Vec<Option<String>>>,
    cwd: &Option<String>,
    exe: &Option<String>,
    root: &Option<String>,
) -> (out: FileContext)
    ensures
        out@ == file_context(*fd, *cwd, *exe, *root),
        out.open_files.len() <= out.fd_count,
{
    let (fd_count, open_files) = match fd {
        Some(entries) => (entries.len(), open_targets(entries)),
        None => {
            let none: Vec<String> = Vec::new();
            assert(none.deep_view() =~= Seq::<Seq<char>>::empty());
            (0, none)
        },
    };
    FileContext {
        fd_count,
        open_files,
        cwd: link_target(cwd),
        exe: link_target(exe),
        root: link_target(root),
    }
}

/// Turns each vector of characters into a string.
fn strings_of(items: &Vec<Vec<char>>) -> (out: Vec<String>)
    ensures
        out.deep_view() == items.deep_view(),
{
    let mut out: Vec<String> = Vec::new();
    let mut i: usize = 0;
    while i < items.len()
        invariant
            i <= items.len(),
            out.len() == i,
            forall|k: int| 0 <= k < i ==> (#[trigger] out@[k])@ == items@[k]@,
        decreases items.len() - i,
    {
        out.push(string_of(&items[i]));
        i += 1;
    }
    assert(out.deep_view() =~~= items.deep_view());
    out
}

/// The variables of the environment `text`, which ends each with NUL.
pub fn parse_environment(text: &str) -> (out: Vec<String>)
    ensures
        out.deep_view() == fields(text@, Separator::Nul),
{
    strings_of(&split(&chars_of(text), Separator::Nul))
}

/// The lines of `text`.
pub fn parse_lines(text: &str) -> (out: Vec<String>)
    ensures
        out.deep_view() == lines(text@),
{
    strings_of(&split_lines(&chars_of(text)))
}

/// `file` without the whitespace at its ends, if there is a file.
pub open spec fn trimmed_if_any(file: Option<String>) -> Option<Seq<char>> {
    match file {
        Some(s) => Some(trim(s@)),
        None => None,
    }
}

/// Removes the whitespace at the ends of `file`, if there is a file.
fn trim_if_any(file: &Option<String>) -> (out: Option<String>)
    ensures
        text_if_any(out) == trimmed_if_any(*file),
{
    match file {
        Some(s) => Some(string_of(&trimmed(&chars_of(s.as_str())))),
        None => None,
    }
}

/// The full record of process `pid`, given what was read of its files, the
/// name file and the status block among them.
///
/// A file that could not be read counts as empty, but for three things: an
/// unread system call or wait channel stays `None`, an unresolved link reads
/// `N/A`, and unlisted descriptors count as none.
pub open spec fn full_info(pid: usize, files: FullFiles) -> FullProcessInfoView {
    let status = files.basic.status->Ok_0@;
    let stat = tokens(text_or_empty(files.stat));
    FullProcessInfoView {
        basic: basic_info(
            pid,
            files.basic.comm->Ok_0@,
            status,
            text_or_empty(files.basic.cmdline),
        ),
        memory: memory_usage(rows(status)),
        cpu: cpu_times(stat, files.uptime),
        scheduling: scheduling(stat),
        io: io_counters(rows(text_or_empty(files.io))),
        files: file_context(files.fd, files.cwd, files.exe, files.root),
        limits: limits_of(text_or_empty(files.limits)),
        tcp_connections: Seq::empty(),
        udp_connections: Seq::empty(),
        unix_sockets: Seq::empty(),
        environment: fields(text_or_empty(files.environ), Separator::Nul),
        numa_maps: lines(text_or_empty(files.numa_maps)),
        cgroups: lines(text_or_empty(files.cgroup)),
        syscall: trimmed_if_any(files.syscall),
        wchan: trimmed_if_any(files.wchan),
    }
}

/// A list of strings that holds nothing.
fn no_strings() -> (out: Vec<String>)
    ensures
        out.deep_view() == Seq::<Seq<char>>::empty(),
{
    let out: Vec<String> = Vec::new();
    assert(out.deep_view() =~= Seq::<Seq<char>>::empty());
    out
}

/// Reads the full record of process `pid` from what was read of its files.
///
/// The name file and the status block are needed: the failure of the first
/// of them that failed is returned. Any other file that could not be read
/// leaves its part of the record empty, absent or at its fallback, and the
/// record is made all the same. The record carries `pid` as given. The count
/// of descriptors and the list of their targets are kept apart: the list may
/// be the shorter.
pub fn read_all_info(pid: usize, files: &FullFiles) -> (out: Result<FullProcessInfo, ProcError>)
    ensures
        out matches Ok(info) ==> {
            &&& first_failure(files.basic.comm, files.basic.status) is None
            &&& info@ == full_info(pid, *files)
            &&& info.basic.pid == pid
            &&& info.files.open_files.len() <= info.files.fd_count
        },
        out matches Err(e) ==> first_failure(files.basic.comm, files.basic.status) == Some(e),
        files.basic.comm matches Err(ProcError::NotFound) ==> out matches Err(
            ProcError::NotFound,
        ),
{
    let comm = match &files.basic.comm {
        Ok(s) => s,
        Err(e) => {
            return Err(*e);
        },
    };
    let status_text = match &files.basic.status {
        Ok(s) => s,
        Err(e) => {
            return Err(*e);
        },
    };
    let status = parse_rows(status_text.as_str());
    let stat = split(&chars_of(or_empty(&files.stat)), Separator::Whitespace);
    let io = parse_rows(or_empty(&files.io));
    Ok(
        FullProcessInfo {
            basic: info_from_rows(pid, comm.as_str(), &status, or_empty(&files.basic.cmdline)),
            memory: parse_memory(&status),
            cpu: parse_cpu(&stat, files.uptime),
            scheduling: parse_scheduling(&stat),
            io: parse_io(&io),
            files: parse_files(&files.fd, &files.cwd, &files.exe, &files.root),
            limits: parse_limits(or_empty(&files.limits)),
            tcp_connections: no_strings(),
            udp_connections: no_strings(),
            unix_sockets: no_strings(),
            environment: parse_environment(or_empty(&files.environ)),
            numa_maps: parse_lines(or_empty(&files.numa_maps)),
            cgroups: parse_lines(or_empty(&files.cgroup)),
            syscall: trim_if_any(&files.syscall),
            wchan: trim_if_any(&files.wchan),
        },
    )
}

/// The process that a directory entry named `name` stands for: the number
/// that the name writes, if it writes a positive one.
pub open spec fn entry_pid(name: Seq<char>) -> Option<usize> {
    match parse_unsigned(name, usize::MAX as int) {
        Some(n) => if n > 0 {
            Some(n as usize)
        } else {
            None
        },
        None => None,
    }
}

/// The entry that is named by the number of a process, written in decimal
/// digits without leading zeros, stands for that process. So entries named
/// in this way stand for different processes where their names differ.
pub proof fn lemma_entry_pid_of_decimal(pid: usize)
    requires
        pid > 0,
    ensures
        entry_pid(decimal_digits(pid as nat)) == Some(pid),
{
    lemma_decimal_digits(pid as nat);
}

/// The processes among the directory entries named `names`, in their order.
pub open spec fn entry_pids(names: Seq<String>) -> Seq<usize> {
    names.filter_map(|name: String| entry_pid(name@))
}

/// The processes that the listing `listing` of the process root shows; none
/// where the root could not be listed.
pub open spec fn listed_pids(listing: Option<Vec<String>>) -> Seq<usize> {
    match listing {
        Some(names) => entry_pids(names@),
        None => Seq::empty(),
    }
}

/// Tells which process a directory entry named `name` stands for, if any.
pub fn pid_of_entry(name: &str) -> (out: Option<usize>)
    ensures
        out == entry_pid(name@),
{
    match read_usize(&chars_of(name)) {
        Some(n) => if n > 0 {
            Some(n)
        } else {
            None
        },
        None => None,
    }
}

/// Picks the processes out of the listing of the process root.
///
/// An entry counts where its name writes a positive number. A root that
/// could not be listed, like one without entries, shows no process.
pub fn process_ids(listing: &Option<Vec<String>>) -> (out: Vec<usize>)
    ensures
        out@ == listed_pids(*listing),
        listing is None ==> out@.len() == 0,
        listing matches Some(names) ==> out@.len() <= names.len(),
{
    let mut out: Vec<usize> = Vec::new();
    let names = match listing {
        Some(names) => names,
        None => {
            return out;
        },
    };
    let ghost f = |name: String| entry_pid(name@);
    let mut i: usize = 0;
    assert(names@.take(0).filter_map(f) =~= Seq::<usize>::empty());
    while i < names.len()
        invariant
            i <= names.len(),
            f == |name: String| entry_pid(name@),
            out@ == names@.take(i as int).filter_map(f),
            out@.len() <= i,
        decreases names.len() - i,
    {
        proof {
            names@.lemma_filter_map_take_succ(f, i as int);
        }
        match pid_of_entry(names[i].as_str()) {
            Some(pid) => {
                out.push(pid);
            },
            None => {},
        }
        i += 1;
    }
    assert(names@.take(i as int) =~= names@);
    out
}

/// The identity of process `pid`, given what was read of its name file; none
/// where the file could not be read.
pub open spec fn identity(pid: usize, comm: Option<String>) -> Option<ProcessView> {
    match comm {
        Some(name) => Some(ProcessView { pid: pid, name: trim(name@) }),
        None => None,
    }
}

/// The identities of the processes `found`, each given with what was read of
/// its name file. A process whose name file could not be read is left out;
/// the others keep their order.
pub open spec fn identities(found: Seq<(usize, Option<String>)>) -> Seq<ProcessView> {
    found.filter_map(|entry: (usize, Option<String>)| identity(entry.0, entry.1))
}

/// Names the processes `found`, each given with what was read of its name
/// file. A process that vanished before its name could be read is left out.
pub fn get_pids_info(found: &Vec<(usize, Option<String>)>) -> (out: Vec<Process>)
    ensures
        out.deep_view() == identities(found@),
        out.len() <= found.len(),
{
    let ghost f = |entry: (usize, Option<String>)| identity(entry.0, entry.1);
    let mut out: Vec<Process> = Vec::new();
    let mut i: usize = 0;
    assert(out.deep_view() =~= found@.take(0).filter_map(f));
    while i < found.len()
        invariant
            i <= found.len(),
            f == |entry: (usize, Option<String>)| identity(entry.0, entry.1),
            out.deep_view() == found@.take(i as int).filter_map(f),
            out.len() <= i,
        decreases found.len() - i,
    {
        let ghost before = out.deep_view();
        proof {
            found@.lemma_filter_map_take_succ(f, i as int);
        }
        match &found[i].1 {
            Some(comm) => {
                let name = string_of(&trimmed(&chars_of(comm.as_str())));
                let process = Process { pid: found[i].0, name };
                assert(identity(found@[i as int].0, found@[i as int].1) == Some(process@));
                out.push(process);
                assert(out.deep_view() =~= before + seq![process@]);
            },
            None => {},
        }
        i += 1;
    }
    assert(found@.take(i as int) =~= found@);
    out
}

/// The processes to show, given the listed processes with what was read of
/// their name files, or `None` where the process root could not be listed.
pub open spec fn shown(found: Option<Vec<(usize, Option<String>)>>) -> Seq<ProcessView> {
    match found {
        Some(entries) => identities(entries@),
        None => Seq::empty(),
    }
}

/// Lists the processes by number and name.
///
/// `found` holds the listed processes with what was read of their name
/// files, or `None` where the process root could not be listed. An unlisted
/// root gives an empty list, as a root without processes does.
pub fn list_proc(found: &Option<Vec<(usize, Option<String>)>>) -> (out: Vec<Process>)
    ensures
        out.deep_view() == shown(*found),
        found is None ==> out.len() == 0,
        found matches Some(entries) ==> out.len() <= entries.len(),
{
    match found {
        Some(entries) => get_pids_info(entries),
        None => {
            let out: Vec<Process> = Vec::new();
            assert(out.deep_view() =~= Seq::<ProcessView>::empty());
            out
        },
    }
}

/// The basic record of process `pid` as read from `files`; none where one of
/// the two needed files could not be read.
pub open spec fn record_if_any(pid: usize, files: BasicFiles) -> Option<ProcessInfoView> {
    if first_failure(files.comm, files.status) is None {
        Some(
            basic_info(pid, files.comm->Ok_0@, files.status->Ok_0@, text_or_empty(files.cmdline)),
        )
    } else {
        None
    }
}

/// The basic records of the processes `found`, each given with what was read
/// of its files. A process whose record cannot be made is left out; the
/// others keep their order.
pub open spec fn records(found: Seq<(usize, BasicFiles)>) -> Seq<ProcessInfoView> {
    found.filter_map(|entry: (usize, BasicFiles)| record_if_any(entry.0, entry.1))
}

/// Reads the basic records of many processes, each given with what was read
/// of its files. A process that vanished, or whose needed files could not be
/// read, is left out without a failure.
pub fn read_records(found: &Vec<(usize, BasicFiles)>) -> (out: Vec<ProcessInfo>)
    ensures
        out.deep_view() == records(found@),
        out.len() <= found.len(),
{
    let ghost f = |entry: (usize, BasicFiles)| record_if_any(entry.0, entry.1);
    let mut out: Vec<ProcessInfo> = Vec::new();
    let mut i: usize = 0;
    assert(out.deep_view() =~= found@.take(0).filter_map(f));
    while i < found.len()
        invariant
            i <= found.len(),
            f == |entry: (usize, BasicFiles)| record_if_any(entry.0, entry.1),
            out.deep_view() == found@.take(i as int).filter_map(f),
            out.len() <= i,
        decreases found.len() - i,
    {
        let ghost before = out.deep_view();
        proof {
            found@.lemma_filter_map_take_succ(f, i as int);
        }
        match read_info(found[i].0, &found[i].1) {
            Ok(info) => {
                assert(record_if_any(found@[i as int].0, found@[i as int].1) == Some(info@));
                out.push(info);
                assert(out.deep_view() =~= before + seq![info@]);
            },
            Err(_) => {},
        }
        i += 1;
    }
    assert(found@.take(i as int) =~= found@);
    out
}

/// What to read of a process that was asked for.
#[derive(Clone, Copy, Debug, PartialEq, Eq, Structural)]
pub enum Inquiry {
    /// The process is not among the known ones: nothing is read.
    Unrecognized,
    /// The basic record.
    Basic,
    /// The full record.
    Full,
}

/// Whether one of `known` has the number `pid`.
pub open spec fn is_known(known: Seq<Process>, pid: usize) -> bool {
    exists|i: int| 0 <= i < known.len() && (#[trigger] known[i]).pid == pid
}

/// Decides what to read of process `pid`: nothing unless it is among the
/// `known` processes, else the full record if `all` is set and the basic one
/// if not.
pub fn pinfo(pid: usize, all: bool, known: &Vec<Process>) -> (out: Inquiry)
    ensures
        out == if !is_known(known@, pid) {
            Inquiry::Unrecognized
        } else if all {
            Inquiry::Full
        } else {
            Inquiry::Basic
        },
{
    let mut i: usize = 0;
    while i < known.len()
        invariant
            i <= known.len(),
            forall|k: int| 0 <= k < i ==> (#[trigger] known@[k]).pid != pid,
        decreases known.len() - i,
    {
        if known[i].pid == pid {
            return if all {
                Inquiry::Full
            } else {
                Inquiry::Basic
            };
        }
        i += 1;
    }
    Inquiry::Unrecognized
}

} // verus!
