//! Telling at run time whether a value is well formed.

use crate::app::App;
use crate::names::name_is_blank;
use crate::registry::index_of_id_is_first;
use crate::task::{Task, TaskStatus};
use vstd::prelude::*;
use vstd::std_specs::hash::spec_hash_map_iter;
use vstd::std_specs::iter::IteratorSpec;

verus! {

broadcast use vstd::std_specs::hash::group_hash_axioms;

impl Task {
    /// Whether the task is well formed.
    pub fn is_wf(&self) -> (ok: bool)
        ensures
            ok == self@.wf(),
    {
        let consistent = match self.status {
            TaskStatus::Active => match self.started_at {
                Some(since) => self.time_spent <= since,
                None => false,
            },
            TaskStatus::Paused => self.started_at.is_none(),
        };
        self.id >= 1 && !name_is_blank(self.name.as_str()) && consistent && self.expected_duration
            > 0
    }

    /// Whether the task's times lie at or before `clock`.
    pub fn is_within(&self, clock: u64) -> (ok: bool)
        ensures
            ok == self@.within(clock as nat),
    {
        match self.started_at {
            Some(since) => since <= clock,
            None => self.time_spent <= clock,
        }
    }
}

impl App {
    /// Whether every task is well formed, with times that the clock has
    /// reached, and the ids grow along the list and stay below the next one.
    fn tasks_are_wf(&self) -> (ok: bool)
        ensures
            ok == {
                &&& forall|i: int|
                    0 <= i < self@.tasks.len() ==> {
                        &&& (#[trigger] self@.tasks[i]).wf()
                        &&& self@.tasks[i].id < self@.next_id
                        &&& self@.tasks[i].within(self@.clock)
                    }
                &&& forall|i: int, j: int|
                    0 <= i < j < self@.tasks.len() ==> (#[trigger] self@.tasks[i]).id < (
                    #[trigger] self@.tasks[j]).id
            },
    {
        let mut i: usize = 0;
        while i < self.tasks.len()
            invariant
                i <= self.tasks.len(),
                forall|k: int|
                    0 <= k < i ==> {
                        &&& (#[trigger] self@.tasks[k]).wf()
                        &&& self@.tasks[k].id < self@.next_id
                        &&& self@.tasks[k].within(self@.clock)
                    },
                forall|a: int, b: int|
                    0 <= a < b < i ==> (#[trigger] self@.tasks[a]).id < (
                    #[trigger] self@.tasks[b]).id,
            decreases self.tasks.len() - i,
        {
            let task = &self.tasks[i];
            assert(task@ == self@.tasks[i as int]);
            if !task.is_wf() || task.id >= self.next_id || !task.is_within(self.clock) {
                return false;
            }
            if i > 0 && self.tasks[i - 1].id >= task.id {
                assert(self@.tasks[i - 1].id >= self@.tasks[i as int].id);
                return false;
            }
            assert forall|a: int, b: int| 0 <= a < b < i + 1 implies (#[trigger] self@.tasks[a]).id
                < (#[trigger] self@.tasks[b]).id by {
                if b == i && a < i - 1 {
                    assert(self@.tasks[a].id < self@.tasks[i - 1].id);
                }
            }
            i = i + 1;
        }
        true
    }

    /// Whether every break record is well formed, shows nothing past the
    /// clock, and belongs to a task.
    fn breaks_are_wf(&self) -> (ok: bool)
        ensures
            ok == (forall|id: u32| #[trigger]
                self@.breaks.contains_key(id) ==> {
                    &&& self@.breaks[id].wf()
                    &&& self@.breaks[id].within(self@.clock)
                    &&& self@.has_task(id)
                }),
    {
        let ghost entries = spec_hash_map_iter(&self.breaks).remaining();
        for entry in it: self.breaks.iter()
            invariant
                it.seq() == entries,
                entries == spec_hash_map_iter(&self.breaks).remaining(),
                forall|j: int|
                    0 <= j < it.index() ==> {
                        &&& self@.breaks[*(#[trigger] entries[j]).0].wf()
                        &&& self@.breaks[*entries[j].0].within(self@.clock)
                        &&& self@.has_task(*entries[j].0)
                    },
        {
            let (id, record) = entry;
            assert(entry == entries[it.index()]);
            assert(self.breaks@.contains_key(*id) && self.breaks@[*id] == *record);
            assert(self@.breaks.contains_key(*id) && self@.breaks[*id] == record@);
            let found = self.find_by_id(*id);
            proof {
                index_of_id_is_first(self@.tasks, *id);
                match found {
                    Some(i) => {
                        assert(self@.tasks[i as int].id == *id);
                    },
                    None => {},
                }
            }
            if !record.is_wf() || !record.is_within(self.clock) || found.is_none() {
                return false;
            }
        }
        proof {
            assert forall|id: u32| #[trigger] self@.breaks.contains_key(id) implies {
                &&& self@.breaks[id].wf()
                &&& self@.breaks[id].within(self@.clock)
                &&& self@.has_task(id)
            } by {
                assert(self.breaks@.contains_key(id));
                assert(entries.contains((&id, &self.breaks@[id])));
                let j = choose|j: int|
                    0 <= j < entries.len() && entries[j] == (&id, &self.breaks@[id]);
                assert(*entries[j].0 == id);
            }
        }
        true
    }

    /// Whether the state is well formed. It is after `new`, and after every
    /// function of this crate that is given a well-formed state: this is
    /// for a state whose fields have been written to from outside.
    pub fn is_wf(&self) -> (ok: bool)
        ensures
            ok == self@.wf(),
    {
        let selection_ok = match self.selected_index {
            Some(i) => i < self.tasks.len(),
            None => true,
        };
        assert(self@.breaks.dom() =~= self.breaks@.dom());
        self.next_id >= 1 && selection_ok && self.tasks_are_wf() && self.breaks_are_wf()
    }
}

} // verus!
