//! The records that describe processes, and the raw material they are read
//! from.

use vstd::prelude::*;

verus! {

/// Why a pseudo-file could not be read.
#[derive(Clone, Copy, Debug, PartialEq, Eq, Structural)]
pub enum ProcError {
    /// The process has no such file: it does not exist, or exists no more.
    NotFound,
    /// The file is there, but reading it failed.
    IoError,
}

/// The scheduling state of a process.
#[derive(Clone, Copy, Debug, PartialEq, Eq, Structural)]
pub enum ProcessState {
    Running,
    Sleeping,
    DiskSleep,
    Zombie,
    Stopped,
    Idle,
    /// No state was reported, or one that is none of the above.
    Unknown,
}

/// The state that the code `code` stands for.
pub open spec fn state_of_code(code: Seq<char>) -> ProcessState {
    if code == seq!['R'] {
        ProcessState::Running
    } else if code == seq!['S'] {
        ProcessState::Sleeping
    } else if code == seq!['D'] {
        ProcessState::DiskSleep
    } else if code == seq!['Z'] {
        ProcessState::Zombie
    } else if code == seq!['T'] {
        ProcessState::Stopped
    } else if code == seq!['I'] {
        ProcessState::Idle
    } else {
        ProcessState::Unknown
    }
}

/// The state that `value` reports: `Unknown` where there is no value.
pub open spec fn state_of(value: Option<Seq<char>>) -> ProcessState {
    match value {
        Some(code) => state_of_code(code),
        None => ProcessState::Unknown,
    }
}

impl ProcessState {
    /// The one-letter code of the state; `Unknown` has none.
    pub open spec fn spec_code(self) -> Option<char> {
        match self {
            ProcessState::Running => Some('R'),
            ProcessState::Sleeping => Some('S'),
            ProcessState::DiskSleep => Some('D'),
            ProcessState::Zombie => Some('Z'),
            ProcessState::Stopped => Some('T'),
            ProcessState::Idle => Some('I'),
            ProcessState::Unknown => None,
        }
    }

    /// The one-letter code of the state; `Unknown` has none. A code stands for
    /// the state it was taken from.
    pub fn code(self) -> (out: Option<char>)
        ensures
            out == self.spec_code(),
            out matches Some(c) ==> state_of_code(seq![c]) == self,
            out is None <==> self == ProcessState::Unknown,
    {
        let out = match self {
            ProcessState::Running => Some('R'),
            ProcessState::Sleeping => Some('S'),
            ProcessState::DiskSleep => Some('D'),
            ProcessState::Zombie => Some('Z'),
            ProcessState::Stopped => Some('T'),
            ProcessState::Idle => Some('I'),
            ProcessState::Unknown => None,
        };
        proof {
            if out is Some {
                assert(seq!['R'][0] == 'R');
                assert(seq!['S'][0] == 'S');
                assert(seq!['D'][0] == 'D');
                assert(seq!['Z'][0] == 'Z');
                assert(seq!['T'][0] == 'T');
                assert(seq!['I'][0] == 'I');
            }
        }
        out
    }

    /// The state that the code `code` stands for.
    pub fn from_code(code: &Vec<char>) -> (out: ProcessState)
        ensures
            out == state_of_code(code@),
    {
        if code.len() != 1 {
            return ProcessState::Unknown;
        }
        let c = code[0];
        assert(code@ =~= seq![c]);
        proof {
            assert(seq!['R'][0] == 'R');
            assert(seq!['S'][0] == 'S');
            assert(seq!['D'][0] == 'D');
            assert(seq!['Z'][0] == 'Z');
            assert(seq!['T'][0] == 'T');
            assert(seq!['I'][0] == 'I');
        }
        if c == 'R' {
            ProcessState::Running
        } else if c == 'S' {
            ProcessState::Sleeping
        } else if c == 'D' {
            ProcessState::DiskSleep
        } else if c == 'Z' {
            ProcessState::Zombie
        } else if c == 'T' {
            ProcessState::Stopped
        } else if c == 'I' {
            ProcessState::Idle
        } else {
            ProcessState::Unknown
        }
    }
}

/// The view of an optional string.
pub open spec fn text_if_any(value: Option<String>) -> Option<Seq<char>> {
    match value {
        Some(s) => Some(s@),
        None => None,
    }
}

/// A process by number and name.
#[derive(Debug)]
pub struct Process {
    pub pid: usize,
    pub name: String,
}

/// What a `Process` is, as plain values.
pub struct ProcessView {
    pub pid: usize,
    pub name: Seq<char>,
}

impl View for Process {
    type V = ProcessView;

    open spec fn view(&self) -> ProcessView {
        ProcessView { pid: self.pid, name: self.name@ }
    }
}

impl DeepView for Process {
    type V = ProcessView;

    open spec fn deep_view(&self) -> ProcessView {
        self@
    }
}

/// The basic record of one process. A field whose source line is absent or
/// unreadable holds zero, an empty text or `Unknown`.
#[derive(Debug)]
pub struct ProcessInfo {
    pub pid: usize,
    pub name: String,
    pub state: ProcessState,
    pub ppid: usize,
    pub uid: u32,
    pub gid: u32,
    pub threads: usize,
    /// Virtual memory, in kB.
    pub vm_size: usize,
    /// Resident memory, in kB.
    pub vm_rss: usize,
    pub cmdline: String,
}

/// What a `ProcessInfo` is, as plain values.
pub struct ProcessInfoView {
    pub pid: usize,
    pub name: Seq<char>,
    pub state: ProcessState,
    pub ppid: usize,
    pub uid: u32,
    pub gid: u32,
    pub threads: usize,
    pub vm_size: usize,
    pub vm_rss: usize,
    pub cmdline: Seq<char>,
}

impl View for ProcessInfo {
    type V = ProcessInfoView;

    open spec fn view(&self) -> ProcessInfoView {
        ProcessInfoView {
            pid: self.pid,
            name: self.name@,
            state: self.state,
            ppid: self.ppid,
            uid: self.uid,
            gid: self.gid,
            threads: self.threads,
            vm_size: self.vm_size,
            vm_rss: self.vm_rss,
            cmdline: self.cmdline@,
        }
    }
}

impl DeepView for ProcessInfo {
    type V = ProcessInfoView;

    open spec fn deep_view(&self) -> ProcessInfoView {
        self@
    }
}

/// What was read of the files that the basic record of a process is made
/// from.
#[derive(Debug)]
pub struct BasicFiles {
    /// The name file. The record cannot be made without it.
    pub comm: Result<String, ProcError>,
    /// The status block. The record cannot be made without it.
    pub status: Result<String, ProcError>,
    /// The command line, its arguments ended by NUL; `None` where it could
    /// not be read.
    pub cmdline: Option<String>,
}

/// The memory of a process beyond its virtual and resident size, in kB.
#[derive(Clone, Copy, Debug)]
pub struct MemoryUsage {
    pub vm_data: usize,
    pub vm_stack: usize,
    pub vm_exe: usize,
    pub vm_lib: usize,
    pub vm_swap: usize,
    pub vm_locked: usize,
    /// The peak of the resident size.
    pub vm_hwm: usize,
    /// The peak of the virtual size.
    pub vm_peak: usize,
}

/// The processor time of a process, in clock ticks, and the time the system
/// has been up.
#[derive(Clone, Copy, Debug)]
pub struct CpuTimes {
    /// Time spent in user mode.
    pub utime: u64,
    /// Time spent in kernel mode.
    pub stime: u64,
    /// When the process started, counted from the start of the system.
    pub sttime: u64,
    /// How long the system has been up, in whole seconds.
    pub uptime: u64,
}

/// How a process is scheduled.
#[derive(Debug)]
pub struct Scheduling {
    pub prio: i32,
    pub nice: i32,
    pub policy: String,
    pub rt_prio: u32,
}

/// What a `Scheduling` is, as plain values.
pub struct SchedulingView {
    pub prio: i32,
    pub nice: i32,
    pub policy: Seq<char>,
    pub rt_prio: u32,
}

impl View for Scheduling {
    type V = SchedulingView;

    open spec fn view(&self) -> SchedulingView {
        SchedulingView {
            prio: self.prio,
            nice: self.nice,
            policy: self.policy@,
            rt_prio: self.rt_prio,
        }
    }
}

/// The input and output counters of a process. `None` says that the counter
/// could not be had, never that it is zero.
#[derive(Clone, Copy, Debug)]
pub struct IoCounters {
    pub read_bytes: Option<u64>,
    pub write_bytes: Option<u64>,
    pub read_count: Option<u64>,
    pub write_count: Option<u64>,
    pub cancelled_write_bytes: Option<u64>,
}

/// The files of a process.
#[derive(Debug)]
pub struct FileContext {
    /// How many descriptors the process holds.
    pub fd_count: usize,
    /// What the descriptors that could be resolved point to. There may be
    /// fewer of them than `fd_count`.
    pub open_files: Vec<String>,
    pub cwd: String,
    pub exe: String,
    pub root: String,
}

/// What a `FileContext` is, as plain values.
pub struct FileContextView {
    pub fd_count: usize,
    pub open_files: Seq<Seq<char>>,
    pub cwd: Seq<char>,
    pub exe: Seq<char>,
    pub root: Seq<char>,
}

impl View for FileContext {
    type V = FileContextView;

    open spec fn view(&self) -> FileContextView {
        FileContextView {
            fd_count: self.fd_count,
            open_files: self.open_files.deep_view(),
            cwd: self.cwd@,
            exe: self.exe@,
            root: self.root@,
        }
    }
}

/// The resource limits that are read.
#[derive(Clone, Copy, Debug, PartialEq, Eq, Structural)]
pub enum LimitKind {
    CpuTime,
    FileSize,
    DataSize,
    StackSize,
    CoreFileSize,
    ResidentSet,
    Processes,
    OpenFiles,
    LockedMemory,
    AddressSpace,
    FileLocks,
    PendingSignals,
    MsgqueueSize,
    NicePrio,
    RealtimePrio,
    RealtimeTimeout,
}

/// The soft resource limits of a process. Each is text, since a limit may be
/// `unlimited`.
#[derive(Debug)]
pub struct ResourceLimits {
    pub mxcpu_time: String,
    pub mxfile_size: String,
    pub mxdata_size: String,
    pub mxstack_size: String,
    pub mxcore_file_size: String,
    pub mxresident_set: String,
    pub mxprocesses: String,
    pub mxopen_files: String,
    pub mxlocked_memory: String,
    pub mxaddress_space: String,
    pub mxfile_locks: String,
    pub mxpending_signals: String,
    pub mxmsgqueue_size: String,
    pub mxnice_prio: String,
    pub mxrealtime_prio: String,
    pub mxrealtime_timeout: String,
}

impl ResourceLimits {
    /// The soft limit of kind `kind`.
    pub open spec fn soft(self, kind: LimitKind) -> Seq<char> {
        match kind {
            LimitKind::CpuTime => self.mxcpu_time@,
            LimitKind::FileSize => self.mxfile_size@,
            LimitKind::DataSize => self.mxdata_size@,
            LimitKind::StackSize => self.mxstack_size@,
            LimitKind::CoreFileSize => self.mxcore_file_size@,
            LimitKind::ResidentSet => self.mxresident_set@,
            LimitKind::Processes => self.mxprocesses@,
            LimitKind::OpenFiles => self.mxopen_files@,
            LimitKind::LockedMemory => self.mxlocked_memory@,
            LimitKind::AddressSpace => self.mxaddress_space@,
            LimitKind::FileLocks => self.mxfile_locks@,
            LimitKind::PendingSignals => self.mxpending_signals@,
            LimitKind::MsgqueueSize => self.mxmsgqueue_size@,
            LimitKind::NicePrio => self.mxnice_prio@,
            LimitKind::RealtimePrio => self.mxrealtime_prio@,
            LimitKind::RealtimeTimeout => self.mxrealtime_timeout@,
        }
    }

    /// The soft limit of kind `kind`.
    pub fn get(&self, kind: LimitKind) -> (out: &String)
        ensures
            out@ == self.soft(kind),
    {
        match kind {
            LimitKind::CpuTime => &self.mxcpu_time,
            LimitKind::FileSize => &self.mxfile_size,
            LimitKind::DataSize => &self.mxdata_size,
            LimitKind::StackSize => &self.mxstack_size,
            LimitKind::CoreFileSize => &self.mxcore_file_size,
            LimitKind::ResidentSet => &self.mxresident_set,
            LimitKind::Processes => &self.mxprocesses,
            LimitKind::OpenFiles => &self.mxopen_files,
            LimitKind::LockedMemory => &self.mxlocked_memory,
            LimitKind::AddressSpace => &self.mxaddress_space,
            LimitKind::FileLocks => &self.mxfile_locks,
            LimitKind::PendingSignals => &self.mxpending_signals,
            LimitKind::MsgqueueSize => &self.mxmsgqueue_size,
            LimitKind::NicePrio => &self.mxnice_prio,
            LimitKind::RealtimePrio => &self.mxrealtime_prio,
            LimitKind::RealtimeTimeout => &self.mxrealtime_timeout,
        }
    }
}

impl View for ResourceLimits {
    type V = Map<LimitKind, Seq<char>>;

    /// The soft limit of each kind.
    open spec fn view(&self) -> Map<LimitKind, Seq<char>> {
        Map::new(|kind: LimitKind| true, |kind: LimitKind| self.soft(kind))
    }
}

/// The full record of one process.
#[derive(Debug)]
pub struct FullProcessInfo {
    pub basic: ProcessInfo,
    pub memory: MemoryUsage,
    pub cpu: CpuTimes,
    pub scheduling: Scheduling,
    pub io: IoCounters,
    pub files: FileContext,
    pub limits: ResourceLimits,
    /// Connections are not read: the three lists are empty.
    pub tcp_connections: Vec<String>,
    pub udp_connections: Vec<String>,
    pub unix_sockets: Vec<String>,
    pub environment: Vec<String>,
    pub numa_maps: Vec<String>,
    pub cgroups: Vec<String>,
    pub syscall: Option<String>,
    pub wchan: Option<String>,
}

/// What a `FullProcessInfo` is, as plain values.
pub struct FullProcessInfoView {
    pub basic: ProcessInfoView,
    pub memory: MemoryUsage,
    pub cpu: CpuTimes,
    pub scheduling: SchedulingView,
    pub io: IoCounters,
    pub files: FileContextView,
    pub limits: Map<LimitKind, Seq<char>>,
    pub tcp_connections: Seq<Seq<char>>,
    pub udp_connections: Seq<Seq<char>>,
    pub unix_sockets: Seq<Seq<char>>,
    pub environment: Seq<Seq<char>>,
    pub numa_maps: Seq<Seq<char>>,
    pub cgroups: Seq<Seq<char>>,
    pub syscall: Option<Seq<char>>,
    pub wchan: Option<Seq<char>>,
}

impl View for FullProcessInfo {
    type V = FullProcessInfoView;

    open spec fn view(&self) -> FullProcessInfoView {
        FullProcessInfoView {
            basic: self.basic@,
            memory: self.memory,
            cpu: self.cpu,
            scheduling: self.scheduling@,
            io: self.io,
            files: self.files@,
            limits: self.limits@,
            tcp_connections: self.tcp_connections.deep_view(),
            udp_connections: self.udp_connections.deep_view(),
            unix_sockets: self.unix_sockets.deep_view(),
            environment: self.environment.deep_view(),
            numa_maps: self.numa_maps.deep_view(),
            cgroups: self.cgroups.deep_view(),
            syscall: text_if_any(self.syscall),
            wchan: text_if_any(self.wchan),
        }
    }
}

/// What was read of the files that the full record of a process is made
/// from. Only the two files of `basic` are needed; of the others, `None` says
/// that the file could not be read.
#[derive(Debug)]
pub struct FullFiles {
    pub basic: BasicFiles,
    /// The one-line statistics of the process.
    pub stat: Option<String>,
    /// How long the system has been up, in whole seconds; zero where that
    /// could not be had.
    pub uptime: u64,
    /// The input and output counters.
    pub io: Option<String>,
    /// One item for each descriptor of the process: what it points to, or
    /// `None` where it could not be resolved. `None` for the whole where the
    /// descriptors could not be listed.
    pub fd: Option<Vec<Option<String>>>,
    /// What the working directory points to.
    pub cwd: Option<String>,
    /// What the executable points to.
    pub exe: Option<String>,
    /// What the root directory points to.
    pub root: Option<String>,
    /// The table of resource limits.
    pub limits: Option<String>,
    /// The environment, its variables ended by NUL.
    pub environ: Option<String>,
    pub numa_maps: Option<String>,
    pub cgroup: Option<String>,
    pub syscall: Option<String>,
    pub wchan: Option<String>,
}

} // verus!
