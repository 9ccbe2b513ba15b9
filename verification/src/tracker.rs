//! The break tracker: the break record of each task, by the task's id.

use crate::app::{App, AppView};
use crate::registry::{index_of_id, index_of_id_is_first};
use crate::task::TaskStatus;
use crate::tiers::{Break, BreakReport, BreakView};
use vstd::prelude::*;

verus! {

broadcast use vstd::std_specs::hash::group_hash_axioms;

impl AppView {
    /// Whether the task with the id `id` is there and paused.
    pub open spec fn is_paused(self, id: u32) -> bool {
        index_of_id(self.tasks, id) matches Some(i) && self.tasks[i as int].status
            == TaskStatus::Paused
    }

    /// Whether `on_pause` makes a break record for the task with the id
    /// `task_id`: the task is there and has none.
    pub open spec fn lacks_record(self, task_id: u32) -> bool {
        index_of_id(self.tasks, task_id) is Some && !self.breaks.contains_key(task_id)
    }

    /// The state after `on_pause`: a task without a break record gets one
    /// whose first tier begins at the time the state works with. Nothing
    /// changes otherwise.
    pub open spec fn on_pause(self, task_id: u32, now: nat) -> AppView {
        if self.lacks_record(task_id) {
            let seen = self.tick(now);
            AppView {
                breaks: seen.breaks.insert(task_id, BreakView::begun(seen.clock)),
                ..seen
            }
        } else {
            self
        }
    }

    /// The state after `evaluate`: the break record of a paused task is
    /// brought up to the time the state works with. Nothing changes
    /// otherwise.
    pub open spec fn evaluate(self, task_id: u32, now: nat) -> AppView {
        if self.breaks.contains_key(task_id) && self.is_paused(task_id) {
            let seen = self.tick(now);
            AppView {
                breaks: seen.breaks.insert(task_id, seen.breaks[task_id].evaluate(seen.clock)),
                ..seen
            }
        } else {
            self
        }
    }

    /// What the break record of the task with the id `task_id` reports, if
    /// the task has one.
    pub open spec fn report(self, task_id: u32) -> Option<BreakReport> {
        if self.breaks.contains_key(task_id) {
            Some(self.breaks[task_id].report())
        } else {
            None
        }
    }

    /// The break records when `refresh` is part of the way through the list:
    /// of the tasks before the place `upto`, those that are paused have their
    /// records brought up to the clock.
    pub open spec fn refreshed_breaks(self, upto: nat) -> Map<u32, BreakView> {
        Map::new(
            |id: u32| self.breaks.contains_key(id),
            |id: u32|
                if self.is_paused(id) && index_of_id(self.tasks, id)->0 < upto {
                    self.breaks[id].evaluate(self.clock)
                } else {
                    self.breaks[id]
                },
        )
    }

    /// The state after `refresh`: the break record of every paused task is
    /// brought up to the time the state works with.
    pub open spec fn refresh(self, now: nat) -> AppView {
        let seen = self.tick(now);
        AppView {
            breaks: Map::new(
                |id: u32| seen.breaks.contains_key(id),
                |id: u32|
                    if seen.is_paused(id) {
                        seen.breaks[id].evaluate(seen.clock)
                    } else {
                        seen.breaks[id]
                    },
            ),
            ..seen
        }
    }

    /// A state that differs from the well-formed `before` only in its break
    /// records, each of them well formed, with nothing past the clock, and
    /// that of a task, is well formed.
    pub proof fn new_breaks_keep_wf(self, before: AppView)
        requires
            before.wf(),
            self == (AppView { breaks: self.breaks, ..before }),
            self.breaks.dom().finite(),
            forall|id: u32| #[trigger]
                self.breaks.contains_key(id) ==> {
                    &&& self.breaks[id].wf()
                    &&& self.breaks[id].within(before.clock)
                    &&& before.has_task(id)
                },
        ensures
            self.wf(),
    {
    }

    /// Noting a break keeps the state well formed.
    pub proof fn on_pause_keeps_wf(self, task_id: u32, now: nat)
        requires
            self.wf(),
        ensures
            self.on_pause(task_id, now).wf(),
    {
        if self.lacks_record(task_id) {
            self.tick_keeps_wf(now);
            index_of_id_is_first(self.tasks, task_id);
            let i = index_of_id(self.tasks, task_id)->0 as int;
            assert(self.tasks[i].id == task_id);
            self.on_pause(task_id, now).new_breaks_keep_wf(self.tick(now));
        }
    }

    /// Looking at a break keeps the state well formed.
    pub proof fn evaluate_keeps_wf(self, task_id: u32, now: nat)
        requires
            self.wf(),
        ensures
            self.evaluate(task_id, now).wf(),
    {
        if self.breaks.contains_key(task_id) && self.is_paused(task_id) {
            self.tick_keeps_wf(now);
            let seen = self.tick(now);
            seen.breaks[task_id].evaluate_keeps_wf(seen.clock);
            self.evaluate(task_id, now).new_breaks_keep_wf(seen);
        }
    }

    /// Looking at every break keeps the state well formed.
    pub proof fn refresh_keeps_wf(self, now: nat)
        requires
            self.wf(),
        ensures
            self.refresh(now).wf(),
    {
        self.tick_keeps_wf(now);
        let seen = self.tick(now);
        let after = self.refresh(now);
        assert forall|id: u32| #[trigger] after.breaks.contains_key(id) implies after.breaks[id].wf()
            && seen.has_task(id) by {
            assert(seen.breaks.contains_key(id));
            seen.breaks[id].evaluate_keeps_wf(seen.clock);
        }
        assert(after.breaks.dom() =~= seen.breaks.dom());
        after.new_breaks_keep_wf(seen);
    }

    /// In a well-formed state a task is found by its id at its own place.
    pub proof fn id_finds_its_task(self, i: int)
        requires
            self.wf(),
            0 <= i < self.tasks.len(),
        ensures
            index_of_id(self.tasks, self.tasks[i].id) == Some(i as nat),
    {
        index_of_id_is_first(self.tasks, self.tasks[i].id);
    }
}

impl App {
    /// The break record of the task with the id `id`, if it has one.
    pub fn record_of(&self, id: u32) -> (record: Option<Break>)
        ensures
            match record {
                Some(found) => self@.breaks.contains_key(id) && found@ == self@.breaks[id],
                None => !self@.breaks.contains_key(id),
            },
    {
        match self.breaks.get(&id) {
            Some(found) => {
                assert(self.breaks@.contains_key(id) && self.breaks@[id] == *found);
                Some(*found)
            },
            None => {
                assert(!self.breaks@.contains_key(id));
                None
            },
        }
    }

    /// Puts `record` in the place of the break record of the task with the
    /// id `id`.
    fn store_record(&mut self, id: u32, record: Break)
        requires
            old(self)@.wf(),
            record@.wf(),
            record@.within(old(self)@.clock),
            old(self)@.has_task(id),
        ensures
            final(self)@ == (AppView {
                breaks: old(self)@.breaks.insert(id, record@),
                ..old(self)@
            }),
            final(self)@.wf(),
    {
        let ghost before = self@;
        self.breaks.insert(id, record);
        proof {
            assert(self@.tasks =~= before.tasks);
            assert(self@.breaks =~= before.breaks.insert(id, record@));
            self@.new_breaks_keep_wf(before);
        }
    }

    /// Whether the task with the id `id` is there and paused.
    pub fn is_paused(&self, id: u32) -> (paused: bool)
        ensures
            paused == self@.is_paused(id),
    {
        match self.find_by_id(id) {
            Some(i) => match self.tasks[i].status {
                TaskStatus::Paused => true,
                TaskStatus::Active => false,
            },
            None => false,
        }
    }

    /// Notes that the task with the id `task_id` is on a break as of `now`.
    /// If the task has no break record yet, it gets one whose first tier
    /// begins then. A record that is there is left as it is: a break goes
    /// on over every pause of its task. Says whether a record was made.
    pub fn on_pause(&mut self, task_id: u32, now: u64) -> (created: bool)
        requires
            old(self)@.wf(),
        ensures
            final(self)@ == old(self)@.on_pause(task_id, now as nat),
            final(self)@.wf(),
            created == old(self)@.lacks_record(task_id),
    {
        match self.find_by_id(task_id) {
            None => false,
            Some(i) => {
                if self.record_of(task_id).is_some() {
                    return false;
                }
                let reading = self.tick(now);
                assert(self@.tasks[i as int].id == task_id);
                self.store_record(task_id, Break::new(reading));
                true
            },
        }
    }

    /// Looks at the break of the task with the id `task_id` at `now`, and
    /// reports the status of each tier and of the whole; nothing is reported
    /// for a task without a break record.
    ///
    /// While the task is paused its record is first brought up to `now`: a
    /// tier that is seen to have completed starts the next one, at the
    /// instant it completed. This is the one change to the state that
    /// looking makes. The record of an active task is reported as it stands.
    pub fn evaluate(&mut self, task_id: u32, now: u64) -> (report: Option<BreakReport>)
        requires
            old(self)@.wf(),
        ensures
            final(self)@ == old(self)@.evaluate(task_id, now as nat),
            final(self)@.wf(),
            report == final(self)@.report(task_id),
    {
        match self.record_of(task_id) {
            None => None,
            Some(mut record) => {
                if self.is_paused(task_id) {
                    let reading = self.tick(now);
                    assert(self@.tasks[index_of_id(self@.tasks, task_id)->0 as int].id == task_id) by {
                        index_of_id_is_first(self@.tasks, task_id);
                    }
                    let report = record.evaluate(reading);
                    self.store_record(task_id, record);
                    Some(report)
                } else {
                    Some(record.report())
                }
            },
        }
    }

    /// Brings the break record of every paused task up to `now`, as a screen
    /// that shows them all does before it draws.
    pub fn refresh(&mut self, now: u64)
        requires
            old(self)@.wf(),
        ensures
            final(self)@ == old(self)@.refresh(now as nat),
            final(self)@.wf(),
    {
        let reading = self.tick(now);
        let ghost seen = self@;
        let mut i: usize = 0;
        assert(self@.breaks =~= seen.refreshed_breaks(0));
        while i < self.tasks.len()
            invariant
                seen.wf(),
                i <= self.tasks.len(),
                self@.wf(),
                self@ == (AppView { breaks: seen.refreshed_breaks(i as nat), ..seen }),
                reading == seen.clock,
            decreases self.tasks.len() - i,
        {
            let ghost before = self@;
            let id = self.tasks[i].id;
            proof {
                seen.id_finds_its_task(i as int);
            }
            if self.is_paused(id) {
                if let Some(mut record) = self.record_of(id) {
                    record.evaluate(reading);
                    self.store_record(id, record);
                }
            }
            proof {
                let after = self@;
                assert forall|other: u32| seen.breaks.contains_key(other) implies (
                #[trigger] after.breaks[other]) == seen.refreshed_breaks((i + 1) as nat)[other] by {
                    assert(before.breaks.contains_key(other));
                    if other != id {
                        assert(after.breaks[other] == before.breaks[other]);
                        if seen.is_paused(other) {
                            index_of_id_is_first(seen.tasks, other);
                        }
                    }
                }
                assert(after.breaks =~= seen.refreshed_breaks((i + 1) as nat));
            }
            i = i + 1;
        }
        proof {
            assert forall|id: u32| seen.is_paused(id) implies index_of_id(seen.tasks, id)->0
                < seen.tasks.len() by {
                index_of_id_is_first(seen.tasks, id);
            }
            assert(self@.breaks =~= old(self)@.refresh(now as nat).breaks);
        }
    }
}

} // verus!
