//! A task and the time worked on it.

use crate::names::is_blank;
use crate::clock::{gap, instant_view, DEFAULT_EXPECTED_DURATION};
use vstd::prelude::*;

verus! {

/// Whether a task is being worked on.
#[derive(Debug, Clone, Copy, PartialEq, Eq, Structural)]
pub enum TaskStatus {
    Active,
    Paused,
}

/// A named piece of work and the time spent on it.
#[derive(Debug, PartialEq, Eq)]
pub struct Task {
    /// Unique among the tasks of one registry, and positive.
    pub id: u32,
    pub name: String,
    pub status: TaskStatus,
    /// Time worked in the stretches that have ended.
    pub time_spent: u64,
    /// When the running stretch began; present exactly while active.
    pub started_at: Option<u64>,
    pub expected_duration: u64,
}

/// Mathematical model of a task.
pub struct TaskView {
    pub id: u32,
    pub name: Seq<char>,
    pub status: TaskStatus,
    pub time_spent: nat,
    pub started_at: Option<nat>,
    pub expected_duration: nat,
}

impl TaskView {
    /// A task that starts work at `now`.
    pub open spec fn new_active(id: u32, name: Seq<char>, now: nat) -> TaskView {
        TaskView {
            id,
            name,
            status: TaskStatus::Active,
            time_spent: 0,
            started_at: Some(now),
            expected_duration: DEFAULT_EXPECTED_DURATION as nat,
        }
    }

    /// A task that is created on its break.
    pub open spec fn new_paused(id: u32, name: Seq<char>) -> TaskView {
        TaskView {
            id,
            name,
            status: TaskStatus::Paused,
            time_spent: 0,
            started_at: None,
            expected_duration: DEFAULT_EXPECTED_DURATION as nat,
        }
    }

    /// The task has a positive id and a name; it is active exactly when a
    /// stretch is running; the time of the stretches that have ended is no
    /// more than the reading at which the running one began, since all of
    /// them lie before it.
    pub open spec fn wf(self) -> bool {
        &&& self.id >= 1
        &&& !is_blank(self.name)
        &&& self.status == TaskStatus::Active <==> self.started_at is Some
        &&& self.started_at matches Some(since) ==> self.time_spent <= since
        &&& self.expected_duration > 0
    }

    /// Time worked on the task as of `now`.
    pub open spec fn elapsed(self, now: nat) -> nat {
        match self.started_at {
            Some(since) => self.time_spent + gap(now, since),
            None => self.time_spent,
        }
    }

    /// The task after a pause at `now`: the running stretch is added to the
    /// time spent. A paused task stays as it is.
    pub open spec fn paused(self, now: nat) -> TaskView {
        if self.status == TaskStatus::Active {
            TaskView {
                status: TaskStatus::Paused,
                time_spent: self.elapsed(now),
                started_at: None,
                ..self
            }
        } else {
            self
        }
    }

    /// The task after it is resumed at `now`. An active task stays as it is.
    pub open spec fn resumed(self, now: nat) -> TaskView {
        if self.status == TaskStatus::Paused {
            TaskView { status: TaskStatus::Active, started_at: Some(now), ..self }
        } else {
            self
        }
    }

    /// How much of the expected duration has been worked as of `now`, in
    /// whole percent, at most 100.
    pub open spec fn progress_percent(self, now: nat) -> nat {
        let percent = self.elapsed(now) * 100 / self.expected_duration;
        if percent >= 100 {
            100
        } else {
            percent
        }
    }
}

impl View for Task {
    type V = TaskView;

    open spec fn view(&self) -> TaskView {
        TaskView {
            id: self.id,
            name: self.name@,
            status: self.status,
            time_spent: self.time_spent as nat,
            started_at: instant_view(self.started_at),
            expected_duration: self.expected_duration as nat,
        }
    }
}

impl Clone for Task {
    fn clone(&self) -> (copy: Task)
        ensures
            copy@ == self@,
    {
        Task {
            id: self.id,
            name: self.name.clone(),
            status: self.status,
            time_spent: self.time_spent,
            started_at: self.started_at,
            expected_duration: self.expected_duration,
        }
    }
}

impl Task {
    /// A task that starts work at `now`.
    pub fn new_active(id: u32, name: String, now: u64) -> (task: Task)
        requires
            id >= 1,
            !is_blank(name@),
        ensures
            task@ == TaskView::new_active(id, name@, now as nat),
            task@.wf(),
    {
        Task {
            id,
            name,
            status: TaskStatus::Active,
            time_spent: 0,
            started_at: Some(now),
            expected_duration: DEFAULT_EXPECTED_DURATION,
        }
    }

    /// A task that is created on its break.
    pub fn new_paused(id: u32, name: String) -> (task: Task)
        requires
            id >= 1,
            !is_blank(name@),
        ensures
            task@ == TaskView::new_paused(id, name@),
            task@.wf(),
    {
        Task {
            id,
            name,
            status: TaskStatus::Paused,
            time_spent: 0,
            started_at: None,
            expected_duration: DEFAULT_EXPECTED_DURATION,
        }
    }

    /// Time worked on the task as of `now`.
    pub fn elapsed(&self, now: u64) -> (r: u64)
        requires
            self@.wf(),
        ensures
            r == self@.elapsed(now as nat),
    {
        match self.started_at {
            Some(since) => {
                if now >= since {
                    self.time_spent + (now - since)
                } else {
                    self.time_spent
                }
            },
            None => self.time_spent,
        }
    }

    /// Pauses the task at `now` and says whether that changed it: a paused
    /// task stays as it is.
    pub fn pause(&mut self, now: u64) -> (changed: bool)
        requires
            old(self)@.wf(),
        ensures
            final(self)@ == old(self)@.paused(now as nat),
            final(self)@.wf(),
            changed == (old(self)@.status == TaskStatus::Active),
    {
        match self.status {
            TaskStatus::Active => {
                let total = self.elapsed(now);
                self.time_spent = total;
                self.started_at = None;
                self.status = TaskStatus::Paused;
                true
            },
            TaskStatus::Paused => false,
        }
    }

    /// Resumes the task at `now` and says whether that changed it: an active
    /// task stays as it is.
    ///
    /// The time already spent has to lie before `now`, as it does on any
    /// clock that starts at zero and does not run backwards.
    pub fn resume(&mut self, now: u64) -> (changed: bool)
        requires
            old(self)@.wf(),
            old(self)@.status == TaskStatus::Paused ==> old(self)@.time_spent <= now,
        ensures
            final(self)@ == old(self)@.resumed(now as nat),
            final(self)@.wf(),
            changed == (old(self)@.status == TaskStatus::Paused),
    {
        match self.status {
            TaskStatus::Paused => {
                self.started_at = Some(now);
                self.status = TaskStatus::Active;
                true
            },
            TaskStatus::Active => false,
        }
    }

    /// How much of the expected duration has been worked as of `now`, in
    /// whole percent, at most 100.
    pub fn progress_percent(&self, now: u64) -> (r: u64)
        requires
            self@.wf(),
        ensures
            r == self@.progress_percent(now as nat),
            r <= 100,
    {
        let worked: u128 = self.elapsed(now) as u128;
        let percent: u128 = worked * 100 / (self.expected_duration as u128);
        if percent >= 100 {
            100
        } else {
            percent as u64
        }
    }
}

} // verus!
