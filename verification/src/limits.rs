//! The table of resource limits: one line for each limit, made of the
//! limit's name, its soft value, its hard value and perhaps its unit.

use crate::struct_proc::{LimitKind, ResourceLimits};
use crate::table::{lemma_chars_deep_view, parse_rows, rows, same_chars, Table};
use crate::text::{chars_of, split, string_of, tokens, Separator};
use vstd::prelude::*;

verus! {

impl LimitKind {
    /// The name under which the table lists the limit.
    pub open spec fn spec_name(self) -> Seq<char> {
        match self {
            LimitKind::CpuTime => "Max cpu time"@,
            LimitKind::FileSize => "Max file size"@,
            LimitKind::DataSize => "Max data size"@,
            LimitKind::StackSize => "Max stack size"@,
            LimitKind::CoreFileSize => "Max core file size"@,
            LimitKind::ResidentSet => "Max resident set"@,
            LimitKind::Processes => "Max processes"@,
            LimitKind::OpenFiles => "Max open files"@,
            LimitKind::LockedMemory => "Max locked memory"@,
            LimitKind::AddressSpace => "Max address space"@,
            LimitKind::FileLocks => "Max file locks"@,
            LimitKind::PendingSignals => "Max pending signals"@,
            LimitKind::MsgqueueSize => "Max msgqueue size"@,
            LimitKind::NicePrio => "Max nice prio"@,
            LimitKind::RealtimePrio => "Max realtime prio"@,
            LimitKind::RealtimeTimeout => "Max realtime timeout"@,
        }
    }

    /// The name under which the table lists the limit.
    pub fn name(self) -> (out: &'static str)
        ensures
            out@ == self.spec_name(),
    {
        match self {
            LimitKind::CpuTime => "Max cpu time",
            LimitKind::FileSize => "Max file size",
            LimitKind::DataSize => "Max data size",
            LimitKind::StackSize => "Max stack size",
            LimitKind::CoreFileSize => "Max core file size",
            LimitKind::ResidentSet => "Max resident set",
            LimitKind::Processes => "Max processes",
            LimitKind::OpenFiles => "Max open files",
            LimitKind::LockedMemory => "Max locked memory",
            LimitKind::AddressSpace => "Max address space",
            LimitKind::FileLocks => "Max file locks",
            LimitKind::PendingSignals => "Max pending signals",
            LimitKind::MsgqueueSize => "Max msgqueue size",
            LimitKind::NicePrio => "Max nice prio",
            LimitKind::RealtimePrio => "Max realtime prio",
            LimitKind::RealtimeTimeout => "Max realtime timeout",
        }
    }

    /// What stands for the limit where the table does not list it.
    pub open spec fn spec_fallback(self) -> Seq<char> {
        match self {
            LimitKind::NicePrio | LimitKind::RealtimePrio => "0"@,
            _ => "unlimited"@,
        }
    }

    /// What stands for the limit where the table does not list it.
    pub fn fallback(self) -> (out: &'static str)
        ensures
            out@ == self.spec_fallback(),
    {
        match self {
            LimitKind::NicePrio | LimitKind::RealtimePrio => "0",
            _ => "unlimited",
        }
    }
}

/// Whether `row` lists the limit whose name is made of `words`: it begins
/// with these words, and a value follows them.
pub open spec fn is_limit_row(row: Seq<Seq<char>>, words: Seq<Seq<char>>) -> bool {
    row.len() > words.len() && row.take(words.len() as int) == words
}

/// The last of `rows` that lists the limit whose name is made of `words`.
pub open spec fn last_limit_row(rows: Seq<Seq<Seq<char>>>, words: Seq<Seq<char>>) -> Option<
    Seq<Seq<char>>,
>
    decreases rows.len(),
{
    if rows.len() == 0 {
        None
    } else if is_limit_row(rows.last(), words) {
        Some(rows.last())
    } else {
        last_limit_row(rows.drop_last(), words)
    }
}

/// `rows` without the first, which is the table's heading.
pub open spec fn below_heading(rows: Seq<Seq<Seq<char>>>) -> Seq<Seq<Seq<char>>> {
    if rows.len() > 0 {
        rows.skip(1)
    } else {
        rows
    }
}

/// The soft limit of kind `kind` that the rows `rows` of a table give: the
/// token that follows the limit's name in the last row that lists it, the
/// heading set aside; the limit's fallback where no row lists it.
pub open spec fn limit_in_rows(rows: Seq<Seq<Seq<char>>>, kind: LimitKind) -> Seq<char> {
    let words = tokens(kind.spec_name());
    match last_limit_row(below_heading(rows), words) {
        Some(row) => row[words.len() as int],
        None => kind.spec_fallback(),
    }
}

/// The soft limit of kind `kind` that the table `text` gives.
pub open spec fn limit_value(text: Seq<char>, kind: LimitKind) -> Seq<char> {
    limit_in_rows(rows(text), kind)
}

/// The soft limit of each kind that the table `text` gives.
pub open spec fn limits_of(text: Seq<char>) -> Map<LimitKind, Seq<char>> {
    Map::new(|kind: LimitKind| true, |kind: LimitKind| limit_value(text, kind))
}

/// A table without a line below its heading gives each limit its fallback.
pub proof fn lemma_limits_of_bare_table(text: Seq<char>, kind: LimitKind)
    requires
        rows(text).len() <= 1,
    ensures
        limits_of(text)[kind] == kind.spec_fallback(),
{
    assert(below_heading(rows(text)).len() == 0);
}

/// Tells whether `row` lists the limit whose name is made of `words`.
pub fn lists_limit(row: &Vec<Vec<char>>, words: &Vec<Vec<char>>) -> (out: bool)
    ensures
        out == is_limit_row(row.deep_view(), words.deep_view()),
{
    if row.len() <= words.len() {
        return false;
    }
    let ghost r = row.deep_view();
    let ghost w = words.deep_view();
    let mut i: usize = 0;
    while i < words.len()
        invariant
            i <= words.len() < row.len(),
            r == row.deep_view(),
            w == words.deep_view(),
            r.take(i as int) == w.take(i as int),
        decreases words.len() - i,
    {
        proof {
            lemma_chars_deep_view(row@[i as int]);
            lemma_chars_deep_view(words@[i as int]);
            assert(r[i as int] == row@[i as int]@);
            assert(w[i as int] == words@[i as int]@);
        }
        if !same_chars(&row[i], &words[i]) {
            assert(r.take(w.len() as int)[i as int] != w[i as int]);
            return false;
        }
        assert(r.take(i + 1) =~= r.take(i as int).push(r[i as int]));
        assert(w.take(i + 1) =~= w.take(i as int).push(w[i as int]));
        i += 1;
    }
    assert(w.take(i as int) =~= w);
    true
}

/// Finds the soft limit of kind `kind` in the rows of a table of limits.
pub fn soft_limit(table: &Table, kind: LimitKind) -> (out: String)
    ensures
        out@ == limit_in_rows(table@, kind),
{
    let words = split(&chars_of(kind.name()), Separator::Whitespace);
    let ghost all = table@;
    let ghost body = below_heading(all);
    let ghost w = words.deep_view();
    assert(w == tokens(kind.spec_name()));
    if table.rows.len() <= 1 {
        assert(body.len() == 0);
        return string_of(&chars_of(kind.fallback()));
    }
    let mut i: usize = table.rows.len();
    assert(body.take(i - 1) =~= body);
    while i > 1
        invariant
            1 <= i <= table.rows.len(),
            all == table@,
            body == below_heading(all),
            w == words.deep_view(),
            w == tokens(kind.spec_name()),
            last_limit_row(body, w) == last_limit_row(body.take(i - 1), w),
        decreases i,
    {
        let row = &table.rows[i - 1];
        let ghost prefix = body.take(i - 1);
        proof {
            assert(prefix.last() == all[i - 1]);
            assert(all[i - 1] == row.deep_view());
            assert(prefix.drop_last() =~= body.take(i - 2));
        }
        if lists_limit(row, &words) {
            proof {
                lemma_chars_deep_view(row@[words.len() as int]);
                assert(row.deep_view()[words.len() as int] == row@[words.len() as int]@);
                assert(w.len() == words.len());
            }
            return string_of(&row[words.len()]);
        }
        i -= 1;
    }
    assert(body.take(0).len() == 0);
    string_of(&chars_of(kind.fallback()))
}

/// Reads the soft limits out of the table of limits `text`.
///
/// The first line is the heading. A later line gives a limit where it begins
/// with the limit's name and goes on with a value; of several such lines the
/// last counts. Lines that name no known limit are passed over.
pub fn parse_limits(text: &str) -> (out: ResourceLimits)
    ensures
        out@ == limits_of(text@),
{
    let table = parse_rows(text);
    let out = ResourceLimits {
        mxcpu_time: soft_limit(&table, LimitKind::CpuTime),
        mxfile_size: soft_limit(&table, LimitKind::FileSize),
        mxdata_size: soft_limit(&table, LimitKind::DataSize),
        mxstack_size: soft_limit(&table, LimitKind::StackSize),
        mxcore_file_size: soft_limit(&table, LimitKind::CoreFileSize),
        mxresident_set: soft_limit(&table, LimitKind::ResidentSet),
        mxprocesses: soft_limit(&table, LimitKind::Processes),
        mxopen_files: soft_limit(&table, LimitKind::OpenFiles),
        mxlocked_memory: soft_limit(&table, LimitKind::LockedMemory),
        mxaddress_space: soft_limit(&table, LimitKind::AddressSpace),
        mxfile_locks: soft_limit(&table, LimitKind::FileLocks),
        mxpending_signals: soft_limit(&table, LimitKind::PendingSignals),
        mxmsgqueue_size: soft_limit(&table, LimitKind::MsgqueueSize),
        mxnice_prio: soft_limit(&table, LimitKind::NicePrio),
        mxrealtime_prio: soft_limit(&table, LimitKind::RealtimePrio),
        mxrealtime_timeout: soft_limit(&table, LimitKind::RealtimeTimeout),
    };
    assert forall|kind: LimitKind| out.soft(kind) == limit_value(text@, kind) by {
        match kind {
            LimitKind::CpuTime => {},
            LimitKind::FileSize => {},
            LimitKind::DataSize => {},
            LimitKind::StackSize => {},
            LimitKind::CoreFileSize => {},
            LimitKind::ResidentSet => {},
            LimitKind::Processes => {},
            LimitKind::OpenFiles => {},
            LimitKind::LockedMemory => {},
            LimitKind::AddressSpace => {},
            LimitKind::FileLocks => {},
            LimitKind::PendingSignals => {},
            LimitKind::MsgqueueSize => {},
            LimitKind::NicePrio => {},
            LimitKind::RealtimePrio => {},
            LimitKind::RealtimeTimeout => {},
        }
    }
    assert(out@ =~= limits_of(text@));
    out
}

} // verus!
