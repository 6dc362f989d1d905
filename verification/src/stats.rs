//! Counts and totals over the basic records of many processes.

use crate::struct_proc::{ProcessInfo, ProcessInfoView, ProcessState};
use vstd::prelude::*;
use vstd::seq_lib::{commutative_foldl, lemma_fold_left_permutation};

verus! {

/// Counts and totals over a set of processes.
#[derive(Clone, Copy, Debug)]
pub struct AggregateStats {
    /// How many processes there are.
    pub total: usize,
    pub running: usize,
    pub sleeping: usize,
    pub disk_sleep: usize,
    pub zombie: usize,
    pub stopped: usize,
    pub idle: usize,
    /// The sum of the resident sizes, in kB.
    pub total_rss_kb: u128,
    /// The sum of the virtual sizes, in kB.
    pub total_virtual_kb: u128,
}

/// What an `AggregateStats` is, as numbers without bound.
pub struct AggregateStatsView {
    pub total: nat,
    pub running: nat,
    pub sleeping: nat,
    pub disk_sleep: nat,
    pub zombie: nat,
    pub stopped: nat,
    pub idle: nat,
    pub total_rss_kb: nat,
    pub total_virtual_kb: nat,
}

impl View for AggregateStats {
    type V = AggregateStatsView;

    open spec fn view(&self) -> AggregateStatsView {
        AggregateStatsView {
            total: self.total as nat,
            running: self.running as nat,
            sleeping: self.sleeping as nat,
            disk_sleep: self.disk_sleep as nat,
            zombie: self.zombie as nat,
            stopped: self.stopped as nat,
            idle: self.idle as nat,
            total_rss_kb: self.total_rss_kb as nat,
            total_virtual_kb: self.total_virtual_kb as nat,
        }
    }
}

/// One if `a` is `b`, else zero.
pub open spec fn one_if(a: ProcessState, b: ProcessState) -> nat {
    if a == b {
        1
    } else {
        0
    }
}

impl AggregateStatsView {
    /// The counts and totals of no process.
    pub open spec fn zero() -> AggregateStatsView {
        AggregateStatsView {
            total: 0,
            running: 0,
            sleeping: 0,
            disk_sleep: 0,
            zombie: 0,
            stopped: 0,
            idle: 0,
            total_rss_kb: 0,
            total_virtual_kb: 0,
        }
    }

    /// The counts and totals with one more process, `record`: it counts
    /// towards the total and the two sums, and towards the count of its state
    /// unless that is `Unknown`.
    pub open spec fn with(self, record: ProcessInfoView) -> AggregateStatsView {
        AggregateStatsView {
            total: self.total + 1,
            running: self.running + one_if(record.state, ProcessState::Running),
            sleeping: self.sleeping + one_if(record.state, ProcessState::Sleeping),
            disk_sleep: self.disk_sleep + one_if(record.state, ProcessState::DiskSleep),
            zombie: self.zombie + one_if(record.state, ProcessState::Zombie),
            stopped: self.stopped + one_if(record.state, ProcessState::Stopped),
            idle: self.idle + one_if(record.state, ProcessState::Idle),
            total_rss_kb: self.total_rss_kb + record.vm_rss as nat,
            total_virtual_kb: self.total_virtual_kb + record.vm_size as nat,
        }
    }

    /// The counts and totals of two sets of processes taken together.
    pub open spec fn plus(self, other: AggregateStatsView) -> AggregateStatsView {
        AggregateStatsView {
            total: self.total + other.total,
            running: self.running + other.running,
            sleeping: self.sleeping + other.sleeping,
            disk_sleep: self.disk_sleep + other.disk_sleep,
            zombie: self.zombie + other.zombie,
            stopped: self.stopped + other.stopped,
            idle: self.idle + other.idle,
            total_rss_kb: self.total_rss_kb + other.total_rss_kb,
            total_virtual_kb: self.total_virtual_kb + other.total_virtual_kb,
        }
    }

    /// How many processes have a state that is counted.
    pub open spec fn counted(self) -> nat {
        self.running + self.sleeping + self.disk_sleep + self.zombie + self.stopped + self.idle
    }

    /// The count of each state that is counted. `Unknown` has no count.
    pub open spec fn counts_by_state(self) -> Map<ProcessState, nat> {
        map![
            ProcessState::Running => self.running,
            ProcessState::Sleeping => self.sleeping,
            ProcessState::DiskSleep => self.disk_sleep,
            ProcessState::Zombie => self.zombie,
            ProcessState::Stopped => self.stopped,
            ProcessState::Idle => self.idle,
        ]
    }
}

impl AggregateStats {
    /// How many processes are in the state `state`, if that state is
    /// counted.
    pub fn count(&self, state: ProcessState) -> (out: Option<usize>)
        ensures
            out is Some <==> self@.counts_by_state().contains_key(state),
            out matches Some(n) ==> self@.counts_by_state()[state] == n,
            out is None <==> state == ProcessState::Unknown,
    {
        match state {
            ProcessState::Running => Some(self.running),
            ProcessState::Sleeping => Some(self.sleeping),
            ProcessState::DiskSleep => Some(self.disk_sleep),
            ProcessState::Zombie => Some(self.zombie),
            ProcessState::Stopped => Some(self.stopped),
            ProcessState::Idle => Some(self.idle),
            ProcessState::Unknown => None,
        }
    }
}

/// The counts and totals of `records`: each record taken in, one after the
/// other.
pub open spec fn aggregate(records: Seq<ProcessInfoView>) -> AggregateStatsView {
    records.fold_left(
        AggregateStatsView::zero(),
        |acc: AggregateStatsView, record: ProcessInfoView| acc.with(record),
    )
}

/// How many of `records` have the state `state`.
pub open spec fn count_in_state(records: Seq<ProcessInfoView>, state: ProcessState) -> nat {
    records.filter(|record: ProcessInfoView| record.state == state).len()
}

/// The sum of the resident sizes of `records`.
pub open spec fn sum_rss(records: Seq<ProcessInfoView>) -> nat
    decreases records.len(),
{
    if records.len() == 0 {
        0
    } else {
        sum_rss(records.drop_last()) + records.last().vm_rss as nat
    }
}

/// The sum of the virtual sizes of `records`.
pub open spec fn sum_virtual(records: Seq<ProcessInfoView>) -> nat
    decreases records.len(),
{
    if records.len() == 0 {
        0
    } else {
        sum_virtual(records.drop_last()) + records.last().vm_size as nat
    }
}

/// Taking in one more record after `records` is taking it into their counts
/// and totals.
pub proof fn lemma_aggregate_push(records: Seq<ProcessInfoView>, record: ProcessInfoView)
    ensures
        aggregate(records.push(record)) == aggregate(records).with(record),
{
    assert(records.push(record).drop_last() =~= records);
}

/// The total is the number of records; each count is the number of records
/// in that state; each sum is the sum over all records. The counts together
/// never exceed the total, and fall short of it by the number of records
/// whose state is `Unknown`.
pub proof fn lemma_aggregate_counts(records: Seq<ProcessInfoView>)
    ensures
        aggregate(records).total == records.len(),
        aggregate(records).running == count_in_state(records, ProcessState::Running),
        aggregate(records).sleeping == count_in_state(records, ProcessState::Sleeping),
        aggregate(records).disk_sleep == count_in_state(records, ProcessState::DiskSleep),
        aggregate(records).zombie == count_in_state(records, ProcessState::Zombie),
        aggregate(records).stopped == count_in_state(records, ProcessState::Stopped),
        aggregate(records).idle == count_in_state(records, ProcessState::Idle),
        aggregate(records).total_rss_kb == sum_rss(records),
        aggregate(records).total_virtual_kb == sum_virtual(records),
        aggregate(records).counted() + count_in_state(records, ProcessState::Unknown)
            == aggregate(records).total,
        aggregate(records).counted() <= aggregate(records).total,
    decreases records.len(),
{
    reveal(Seq::filter);
    if records.len() > 0 {
        lemma_aggregate_counts(records.drop_last());
    }
}

/// The order of the records does not matter: two sequences that hold the
/// same records, each as often in the one as in the other, have the same
/// counts and totals.
pub proof fn lemma_aggregate_permutation(a: Seq<ProcessInfoView>, b: Seq<ProcessInfoView>)
    requires
        a.to_multiset() == b.to_multiset(),
    ensures
        aggregate(a) == aggregate(b),
{
    let f = |acc: AggregateStatsView, record: ProcessInfoView| acc.with(record);
    assert(commutative_foldl(f));
    lemma_fold_left_permutation(a, b, f, AggregateStatsView::zero());
}

/// Counts and totals that were made of the same records in another order
/// are the same, field by field.
pub proof fn lemma_statistics_permutation(
    a: Seq<ProcessInfoView>,
    b: Seq<ProcessInfoView>,
    of_a: AggregateStats,
    of_b: AggregateStats,
)
    requires
        a.to_multiset() == b.to_multiset(),
        of_a@ == aggregate(a),
        of_b@ == aggregate(b),
    ensures
        of_a == of_b,
{
    lemma_aggregate_permutation(a, b);
}

/// The counts and totals of two sequences of records, one after the other,
/// are those of the one plus those of the other: records may be taken in
/// part by part.
pub proof fn lemma_aggregate_concat(a: Seq<ProcessInfoView>, b: Seq<ProcessInfoView>)
    ensures
        aggregate(a + b) == aggregate(a).plus(aggregate(b)),
    decreases b.len(),
{
    if b.len() == 0 {
        assert(a + b =~= a);
    } else {
        lemma_aggregate_concat(a, b.drop_last());
        assert((a + b).drop_last() =~= a + b.drop_last());
        assert((a + b).last() == b.last());
    }
}

/// Counts the records by state and sums their memory.
///
/// Every record counts towards the total and towards the two sums. A record
/// whose state is `Unknown` counts towards no state.
pub fn statistics(records: &Vec<ProcessInfo>) -> (out: AggregateStats)
    ensures
        out@ == aggregate(records.deep_view()),
        out.total == records.len(),
        out.running + out.sleeping + out.disk_sleep + out.zombie + out.stopped + out.idle
            <= out.total,
{
    let ghost all = records.deep_view();
    let mut out = AggregateStats {
        total: 0,
        running: 0,
        sleeping: 0,
        disk_sleep: 0,
        zombie: 0,
        stopped: 0,
        idle: 0,
        total_rss_kb: 0,
        total_virtual_kb: 0,
    };
    let mut i: usize = 0;
    while i < records.len()
        invariant
            i <= records.len(),
            all == records.deep_view(),
            out@ == aggregate(all.take(i as int)),
            out.total == i,
            out@.counted() <= i,
            out.total_rss_kb <= i * usize::MAX,
            out.total_virtual_kb <= i * usize::MAX,
        decreases records.len() - i,
    {
        let record = &records[i];
        proof {
            assert(all[i as int] == record@);
            assert(all.take(i + 1) =~= all.take(i as int).push(record@));
            lemma_aggregate_push(all.take(i as int), record@);
            lemma_aggregate_counts(all.take(i + 1));
            assert(i * usize::MAX + usize::MAX == (i + 1) * usize::MAX) by (nonlinear_arith);
            assert((i + 1) * usize::MAX <= 0x1_0000_0000_0000_0000 * 0x1_0000_0000_0000_0000)
                by (nonlinear_arith)
                requires
                    i + 1 <= 0x1_0000_0000_0000_0000,
                    usize::MAX <= 0x1_0000_0000_0000_0000,
            ;
        }
        out.total += 1;
        match record.state {
            ProcessState::Running => {
                out.running += 1;
            },
            ProcessState::Sleeping => {
                out.sleeping += 1;
            },
            ProcessState::DiskSleep => {
                out.disk_sleep += 1;
            },
            ProcessState::Zombie => {
                out.zombie += 1;
            },
            ProcessState::Stopped => {
                out.stopped += 1;
            },
            ProcessState::Idle => {
                out.idle += 1;
            },
            ProcessState::Unknown => {},
        }
        out.total_rss_kb += record.vm_rss as u128;
        out.total_virtual_kb += record.vm_size as u128;
        i += 1;
    }
    assert(all.take(i as int) =~= all);
    out
}

} // verus!
