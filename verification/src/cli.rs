//! From a command to what is to be done: which task, in which form, and
//! where the result goes.

use crate::text::{decimal_digits, digits_of, string_of};
use vstd::prelude::*;
use vstd::string::StringExecFns;

verus! {

/// The commands.
#[derive(Clone, Copy, Debug, PartialEq, Eq, Structural)]
pub enum ComList {
    /// Lists the processes by number and name.
    List { json: bool, file: bool },
    /// Counts the processes by state and sums their memory.
    Stats { json: bool, file: bool },
    /// Follows one process.
    Live { pid: usize, json: bool },
    /// Shows the record of one process: the full one if `all` is set.
    Pinfo { pid: usize, json: bool, file: bool, all: bool },
}

/// A command line, parsed.
#[derive(Clone, Copy, Debug, PartialEq, Eq, Structural)]
pub struct Cli {
    pub command: ComList,
}

/// What a command asks for.
#[derive(Clone, Copy, Debug, PartialEq, Eq, Structural)]
pub enum Task {
    List,
    Stats,
    Live { pid: usize },
    Pinfo { pid: usize, all: bool },
}

/// What is to be done for a command.
#[derive(Debug)]
pub struct Plan {
    pub task: Task,
    /// Whether the result is written as JSON, and not as plain text.
    pub json: bool,
    /// The file that the result goes to; `None` where it goes to the
    /// console.
    pub file: Option<String>,
}

/// What a `Plan` is, as plain values.
pub struct PlanView {
    pub task: Task,
    pub json: bool,
    pub file: Option<Seq<char>>,
}

impl View for Plan {
    type V = PlanView;

    open spec fn view(&self) -> PlanView {
        PlanView {
            task: self.task,
            json: self.json,
            file: match self.file {
                Some(name) => Some(name@),
                None => None,
            },
        }
    }
}

/// The task that `command` asks for.
pub open spec fn task_of(command: ComList) -> Task {
    match command {
        ComList::List { .. } => Task::List,
        ComList::Stats { .. } => Task::Stats,
        ComList::Live { pid, .. } => Task::Live { pid },
        ComList::Pinfo { pid, all, .. } => Task::Pinfo { pid, all },
    }
}

/// Whether `command` asks for JSON.
pub open spec fn wants_json(command: ComList) -> bool {
    match command {
        ComList::List { json, .. } => json,
        ComList::Stats { json, .. } => json,
        ComList::Live { json, .. } => json,
        ComList::Pinfo { json, .. } => json,
    }
}

/// Whether `command` asks for its result in a file. Following a process
/// always goes to the console.
pub open spec fn wants_file(command: ComList) -> bool {
    match command {
        ComList::List { file, .. } => file,
        ComList::Stats { file, .. } => file,
        ComList::Live { .. } => false,
        ComList::Pinfo { file, .. } => file,
    }
}

/// The ending of a file's name: that of JSON or that of plain text.
pub open spec fn ending(json: bool) -> Seq<char> {
    if json {
        ".json"@
    } else {
        ".txt"@
    }
}

/// The name of the file that the result of `task` goes to when it goes to a
/// file, as JSON or as plain text. Following a process has no file.
pub open spec fn file_of(task: Task, json: bool) -> Option<Seq<char>> {
    match task {
        Task::List => Some("./processes"@ + ending(json)),
        Task::Stats => Some("./statistics"@ + ending(json)),
        Task::Live { .. } => None,
        Task::Pinfo { pid, all } => Some(
            "./processes_"@ + decimal_digits(pid as nat) + (if all {
                "_all_info"@
            } else {
                "_info"@
            }) + ending(json),
        ),
    }
}

/// What is to be done for `command`.
pub open spec fn plan_of(command: ComList) -> PlanView {
    PlanView {
        task: task_of(command),
        json: wants_json(command),
        file: if wants_file(command) {
            file_of(task_of(command), wants_json(command))
        } else {
            None
        },
    }
}

/// The ending of a file's name: that of JSON or that of plain text.
pub fn ending_of(json: bool) -> (out: &'static str)
    ensures
        out@ == ending(json),
{
    if json {
        ".json"
    } else {
        ".txt"
    }
}

/// Builds the name of the file that the result of `task` goes to, if it has
/// one.
pub fn file_name(task: Task, json: bool) -> (out: Option<String>)
    ensures
        out matches Some(name) ==> file_of(task, json) == Some(name@),
        out is None ==> file_of(task, json) is None,
{
    match task {
        Task::List => {
            let mut out = String::from_str("./processes");
            out.append(ending_of(json));
            Some(out)
        },
        Task::Stats => {
            let mut out = String::from_str("./statistics");
            out.append(ending_of(json));
            Some(out)
        },
        Task::Live { .. } => None,
        Task::Pinfo { pid, all } => {
            let mut out = String::from_str("./processes_");
            out.append(string_of(&digits_of(pid as u128)).as_str());
            out.append(
                if all {
                    "_all_info"
                } else {
                    "_info"
                },
            );
            out.append(ending_of(json));
            Some(out)
        },
    }
}

/// Decides what is to be done for the command line `cli`: the task, whether
/// the result is JSON, and the file it goes to, if any.
pub fn handler(cli: Cli) -> (out: Plan)
    ensures
        out@ == plan_of(cli.command),
{
    let (task, json, file) = match cli.command {
        ComList::List { json, file } => (Task::List, json, file),
        ComList::Stats { json, file } => (Task::Stats, json, file),
        ComList::Live { pid, json } => (Task::Live { pid }, json, false),
        ComList::Pinfo { pid, json, file, all } => (Task::Pinfo { pid, all }, json, file),
    };
    Plan {
        task,
        json,
        file: if file {
            file_name(task, json)
        } else {
            None
        },
    }
}

} // verus!
