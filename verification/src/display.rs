//! What the screen is given to show: the time worked as text, and a
//! snapshot of the state at one moment.

use crate::app::{App, AppView, Warning};
use crate::clock::NANOS_PER_SECOND;
use crate::task::{Task, TaskStatus, TaskView};
use crate::tiers::{Break, BreakReport, BreakStatus, BreakView, TierStatus};
use vstd::prelude::*;
use vstd::string::StringExecFns;

verus! {

/// The character for the digit `d`, for `d` below ten.
pub open spec fn digit(d: nat) -> char {
    (48 + d) as char
}

/// The number `n` in decimal digits.
pub open spec fn decimal(n: nat) -> Seq<char>
    decreases n,
{
    if n < 10 {
        seq![digit(n)]
    } else {
        decimal(n / 10).push(digit(n % 10))
    }
}

/// The number `n` in decimal digits, two of them at least.
pub open spec fn two_digits(n: nat) -> Seq<char> {
    if n < 10 {
        seq!['0'] + decimal(n)
    } else {
        decimal(n)
    }
}

/// A count of seconds as hours, minutes and seconds, each of two digits at
/// least, with colons between them.
pub open spec fn hms(seconds: nat) -> Seq<char> {
    two_digits(seconds / 3600) + seq![':'] + two_digits(seconds % 3600 / 60) + seq![':']
        + two_digits(seconds % 60)
}

/// The text of one digit.
fn digit_text(d: u64) -> (text: &'static str)
    requires
        d < 10,
    ensures
        text@ == seq![digit(d as nat)],
{
    proof {
        reveal_strlit("0");
        reveal_strlit("1");
        reveal_strlit("2");
        reveal_strlit("3");
        reveal_strlit("4");
        reveal_strlit("5");
        reveal_strlit("6");
        reveal_strlit("7");
        reveal_strlit("8");
        reveal_strlit("9");
    }
    let text = if d == 0 {
        "0"
    } else if d == 1 {
        "1"
    } else if d == 2 {
        "2"
    } else if d == 3 {
        "3"
    } else if d == 4 {
        "4"
    } else if d == 5 {
        "5"
    } else if d == 6 {
        "6"
    } else if d == 7 {
        "7"
    } else if d == 8 {
        "8"
    } else {
        "9"
    };
    assert(text@ =~= seq![digit(d as nat)]);
    text
}

/// Writes `n` in decimal digits at the end of `out`.
fn push_decimal(out: &mut String, n: u64)
    ensures
        final(out)@ == old(out)@ + decimal(n as nat),
    decreases n,
{
    if n >= 10 {
        push_decimal(out, n / 10);
    }
    out.append(digit_text(n % 10));
    assert(out@ =~= old(out)@ + decimal(n as nat));
}

/// Writes `n` in decimal digits, two of them at least, at the end of `out`.
fn push_two_digits(out: &mut String, n: u64)
    ensures
        final(out)@ == old(out)@ + two_digits(n as nat),
{
    if n < 10 {
        proof {
            reveal_strlit("0");
        }
        out.append("0");
    }
    push_decimal(out, n);
    assert(out@ =~= old(out)@ + two_digits(n as nat));
}

/// A count of seconds as text: hours, minutes and seconds, each of two
/// digits at least, with colons between them.
pub fn format_hms(seconds: u64) -> (text: String)
    ensures
        text@ == hms(seconds as nat),
{
    proof {
        reveal_strlit(":");
    }
    let mut text = String::new();
    push_two_digits(&mut text, seconds / 3600);
    text.append(":");
    push_two_digits(&mut text, seconds % 3600 / 60);
    text.append(":");
    push_two_digits(&mut text, seconds % 60);
    assert(text@ =~= hms(seconds as nat));
    text
}

/// One line of the task list.
#[derive(Debug, PartialEq, Eq)]
pub struct TaskRow {
    pub id: u32,
    pub name: String,
    pub status: TaskStatus,
    /// The time worked, as hours, minutes and seconds.
    pub elapsed_display: String,
    /// The time worked, in whole minutes.
    pub elapsed_minutes: u64,
}

/// Mathematical model of a line of the task list.
pub struct TaskRowView {
    pub id: u32,
    pub name: Seq<char>,
    pub status: TaskStatus,
    pub elapsed_display: Seq<char>,
    pub elapsed_minutes: nat,
}

impl View for TaskRow {
    type V = TaskRowView;

    open spec fn view(&self) -> TaskRowView {
        TaskRowView {
            id: self.id,
            name: self.name@,
            status: self.status,
            elapsed_display: self.elapsed_display@,
            elapsed_minutes: self.elapsed_minutes as nat,
        }
    }
}

/// More about the selected task.
#[derive(Debug, Clone, Copy, PartialEq, Eq, Structural)]
pub struct Detail {
    /// The time worked, in nanoseconds.
    pub elapsed: u64,
    /// The time worked in whole percent of the expected time, at most 100.
    pub progress_percent: u64,
    /// What the task's break record holds, if it has one.
    pub breaks: Option<BreakReport>,
}

/// Mathematical model of what is said about the selected task.
pub struct DetailView {
    pub elapsed: nat,
    pub progress_percent: nat,
    pub breaks: Option<BreakReport>,
}

impl View for Detail {
    type V = DetailView;

    open spec fn view(&self) -> DetailView {
        DetailView {
            elapsed: self.elapsed as nat,
            progress_percent: self.progress_percent as nat,
            breaks: self.breaks,
        }
    }
}

/// One entry of the log that the timer screen shows.
#[derive(Debug, Clone, Copy, PartialEq, Eq, Structural)]
pub enum LogEntry {
    /// A tier of the break of the task at the place `task`: which tier it
    /// is, from 1 to 3, how long it has been seen to run, in nanoseconds,
    /// and where it stands.
    Tier { task: usize, tier: u8, elapsed: u64, status: TierStatus },
    /// The break of the task at the place `task` is exceeded.
    Exceeded { task: usize },
    /// The task at the place `task` was resumed from the timer screen.
    Resumed { task: usize },
}

/// The state at one moment, as the screen needs it.
#[derive(Debug, PartialEq, Eq)]
pub struct Snapshot {
    /// The tasks in their order.
    pub rows: Vec<TaskRow>,
    /// The selected task, if one is selected.
    pub detail: Option<Detail>,
    /// The warning to show, if any.
    pub warning: Option<Warning>,
}

/// Mathematical model of a snapshot.
pub struct SnapshotView {
    pub rows: Seq<TaskRowView>,
    pub detail: Option<DetailView>,
    pub warning: Option<Warning>,
}

/// The model of what is said about the selected task, or of nothing.
pub open spec fn detail_view(detail: Option<Detail>) -> Option<DetailView> {
    match detail {
        Some(d) => Some(d@),
        None => None,
    }
}

impl View for Snapshot {
    type V = SnapshotView;

    open spec fn view(&self) -> SnapshotView {
        SnapshotView {
            rows: self.rows@.map_values(|row: TaskRow| row@),
            detail: detail_view(self.detail),
            warning: self.warning,
        }
    }
}

impl TaskView {
    /// The time worked as of `now`, as hours, minutes and seconds.
    pub open spec fn elapsed_display(self, now: nat) -> Seq<char> {
        hms(self.elapsed(now) / (NANOS_PER_SECOND as nat))
    }

    /// The task's line in the list as of `now`.
    pub open spec fn row(self, now: nat) -> TaskRowView {
        TaskRowView {
            id: self.id,
            name: self.name,
            status: self.status,
            elapsed_display: self.elapsed_display(now),
            elapsed_minutes: self.elapsed(now) / (NANOS_PER_SECOND as nat) / 60,
        }
    }
}

/// The entry of tier `k` of the break `record` of the task at the place
/// `task`, if the tier has begun.
pub open spec fn tier_entry(task: int, k: int, record: BreakView) -> Seq<LogEntry> {
    if record.tier_status(k) != TierStatus::Idle {
        seq![
            LogEntry::Tier {
                task: task as usize,
                tier: k as u8,
                elapsed: record.tier(k).elapsed as u64,
                status: record.tier_status(k),
            },
        ]
    } else {
        Seq::empty()
    }
}

impl AppView {
    /// More about the task at `index` as of `now`.
    pub open spec fn detail(self, index: nat, now: nat) -> DetailView {
        DetailView {
            elapsed: self.tasks[index as int].elapsed(now),
            progress_percent: self.tasks[index as int].progress_percent(now),
            breaks: self.report(self.tasks[index as int].id),
        }
    }

    /// What the log says of the break of the task at the place `i`: while
    /// the task is paused, an entry for each tier that has begun, and one
    /// more if the break is exceeded.
    pub open spec fn break_entries(self, i: int) -> Seq<LogEntry> {
        let task = self.tasks[i];
        if task.status == TaskStatus::Paused && self.breaks.contains_key(task.id) {
            let record = self.breaks[task.id];
            tier_entry(i, 1, record) + tier_entry(i, 2, record) + tier_entry(i, 3, record) + (
            if record.report().overall == BreakStatus::Exceeded {
                seq![LogEntry::Exceeded { task: i as usize }]
            } else {
                Seq::empty()
            })
        } else {
            Seq::empty()
        }
    }

    /// What the log says of a resume of the task at the place `i`: an entry
    /// if the task has the name that was resumed last from the timer screen.
    pub open spec fn resumed_entry(self, i: int) -> Seq<LogEntry> {
        if self.show_green_log && self.green_log_task == Some(self.tasks[i].name) {
            seq![LogEntry::Resumed { task: i as usize }]
        } else {
            Seq::empty()
        }
    }

    /// The log of the first `n` tasks, task by task.
    pub open spec fn log_of_first(self, n: nat) -> Seq<LogEntry>
        decreases n,
    {
        if n == 0 {
            Seq::empty()
        } else {
            self.log_of_first((n - 1) as nat) + self.break_entries(n - 1) + self.resumed_entry(
                n - 1,
            )
        }
    }

    /// The log that the timer screen shows: for each task in its order,
    /// what there is to say of its break and of its resume.
    pub open spec fn break_log(self) -> Seq<LogEntry> {
        self.log_of_first(self.tasks.len())
    }

    /// The state as of `now`, as the screen needs it.
    pub open spec fn snapshot(self, now: nat) -> SnapshotView {
        SnapshotView {
            rows: Seq::new(self.tasks.len(), |i: int| self.tasks[i].row(now)),
            detail: match self.selected_index {
                Some(i) => Some(self.detail(i, now)),
                None => None,
            },
            warning: self.warning,
        }
    }
}

impl Task {
    /// The time worked as of `now`, as hours, minutes and seconds.
    pub fn elapsed_display(&self, now: u64) -> (text: String)
        requires
            self@.wf(),
        ensures
            text@ == self@.elapsed_display(now as nat),
    {
        format_hms(self.elapsed(now) / NANOS_PER_SECOND)
    }

    /// The task's line in the list as of `now`.
    pub fn row(&self, now: u64) -> (row: TaskRow)
        requires
            self@.wf(),
        ensures
            row@ == self@.row(now as nat),
    {
        TaskRow {
            id: self.id,
            name: self.name.clone(),
            status: self.status,
            elapsed_display: self.elapsed_display(now),
            elapsed_minutes: self.elapsed(now) / NANOS_PER_SECOND / 60,
        }
    }
}

/// Puts the entry of tier `k` at the end of `log`, if the tier has begun.
fn push_tier_entry(
    log: &mut Vec<LogEntry>,
    task: usize,
    k: u8,
    record: &Break,
    elapsed: u64,
    status: TierStatus,
)
    requires
        1 <= k <= 3,
        elapsed == record@.tier(k as int).elapsed,
        status == record@.tier_status(k as int),
    ensures
        final(log)@ == old(log)@ + tier_entry(task as int, k as int, record@),
{
    if status != TierStatus::Idle {
        log.push(LogEntry::Tier { task, tier: k, elapsed, status });
    }
    assert(log@ =~= old(log)@ + tier_entry(task as int, k as int, record@));
}

impl App {
    /// The log that the timer screen shows. For each task in its order:
    /// while the task is paused, an entry for each tier of its break that
    /// has begun, and one more if the break is exceeded; and an entry if
    /// the task has the name that was resumed last from the timer screen.
    /// The break records are reported as they stand.
    pub fn break_log(&self) -> (log: Vec<LogEntry>)
        ensures
            log@ == self@.break_log(),
    {
        let mut log: Vec<LogEntry> = Vec::new();
        let mut i: usize = 0;
        while i < self.tasks.len()
            invariant
                i <= self.tasks.len(),
                log@ == self@.log_of_first(i as nat),
            decreases self.tasks.len() - i,
        {
            let ghost before = log@;
            let task = &self.tasks[i];
            assert(task@ == self@.tasks[i as int]);
            let paused = match task.status {
                TaskStatus::Paused => true,
                TaskStatus::Active => false,
            };
            if paused {
                if let Some(record) = self.record_of(task.id) {
                    let report = record.report();
                    push_tier_entry(&mut log, i, 1, &record, record.elapsed_time_1, report.tier1);
                    push_tier_entry(&mut log, i, 2, &record, record.elapsed_time_2, report.tier2);
                    push_tier_entry(&mut log, i, 3, &record, record.elapsed_time_3, report.tier3);
                    if report.overall == BreakStatus::Exceeded {
                        log.push(LogEntry::Exceeded { task: i });
                    }
                }
            }
            assert(log@ =~= before + self@.break_entries(i as int));
            let resumed = self.show_green_log && match &self.green_log_task {
                Some(name) => *name == task.name,
                None => false,
            };
            if resumed {
                log.push(LogEntry::Resumed { task: i });
            }
            assert(log@ =~= before + self@.break_entries(i as int) + self@.resumed_entry(i as int));
            i = i + 1;
        }
        log
    }

    /// The state as of `now`, as the screen needs it: a line for each task,
    /// more about the selected one, and the warning to show. It changes
    /// nothing; the break records are reported as they stand.
    pub fn snapshot(&self, now: u64) -> (snapshot: Snapshot)
        requires
            self@.wf(),
        ensures
            snapshot@ == self@.snapshot(now as nat),
    {
        let mut rows: Vec<TaskRow> = Vec::new();
        let mut i: usize = 0;
        while i < self.tasks.len()
            invariant
                self@.wf(),
                i <= self.tasks.len(),
                rows@.len() == i,
                forall|j: int| 0 <= j < i ==> (#[trigger] rows@[j])@ == self@.tasks[j].row(now as nat),
            decreases self.tasks.len() - i,
        {
            assert(self@.tasks[i as int].wf());
            let row = self.tasks[i].row(now);
            rows.push(row);
            i = i + 1;
        }
        let detail = match self.selected_index {
            Some(index) => {
                assert(self@.tasks[index as int].wf());
                let task = &self.tasks[index];
                let breaks = match self.record_of(task.id) {
                    Some(record) => Some(record.report()),
                    None => None,
                };
                Some(
                    Detail {
                        elapsed: task.elapsed(now),
                        progress_percent: task.progress_percent(now),
                        breaks,
                    },
                )
            },
            None => None,
        };
        let snapshot = Snapshot { rows, detail, warning: self.warning };
        assert(snapshot@.rows =~= self@.snapshot(now as nat).rows);
        snapshot
    }
}

} // verus!
