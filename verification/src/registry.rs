//! The task registry: adding, finding, pausing, resuming and removing
//! tasks, and moving the selection.

use crate::app::{index_view, App, AppView};
use crate::input::empty_input;
use crate::names::{is_blank, name_is_blank};
use crate::task::{Task, TaskStatus, TaskView};
use vstd::prelude::*;

verus! {

broadcast use vstd::std_specs::hash::group_hash_axioms;

/// What became of a request to pause or to resume a task.
#[derive(Debug, Clone, Copy, PartialEq, Eq, Structural)]
pub enum Toggled {
    /// No task has the id.
    NoSuchTask,
    /// The task was in the state asked for, and stays as it was.
    AlreadySo,
    /// The task changed its state.
    Done,
}

/// The first place in `tasks` whose task is called `name`, if there is one.
pub open spec fn index_of_name(tasks: Seq<TaskView>, name: Seq<char>) -> Option<nat>
    decreases tasks.len(),
{
    if tasks.len() == 0 {
        None
    } else {
        match index_of_name(tasks.drop_last(), name) {
            Some(i) => Some(i),
            None => if tasks.last().name == name {
                Some((tasks.len() - 1) as nat)
            } else {
                None
            },
        }
    }
}

/// The first place in `tasks` whose task has the id `id`, if there is one.
pub open spec fn index_of_id(tasks: Seq<TaskView>, id: u32) -> Option<nat>
    decreases tasks.len(),
{
    if tasks.len() == 0 {
        None
    } else {
        match index_of_id(tasks.drop_last(), id) {
            Some(i) => Some(i),
            None => if tasks.last().id == id {
                Some((tasks.len() - 1) as nat)
            } else {
                None
            },
        }
    }
}

/// `index_of_name` gives the first task of that name, and none only where
/// no task has the name.
pub proof fn index_of_name_is_first(tasks: Seq<TaskView>, name: Seq<char>)
    ensures
        match index_of_name(tasks, name) {
            Some(i) => {
                &&& i < tasks.len()
                &&& tasks[i as int].name == name
                &&& forall|j: int| 0 <= j < i ==> (#[trigger] tasks[j]).name != name
            },
            None => forall|j: int| 0 <= j < tasks.len() ==> (#[trigger] tasks[j]).name != name,
        },
    decreases tasks.len(),
{
    if tasks.len() > 0 {
        let front = tasks.drop_last();
        index_of_name_is_first(front, name);
        assert(forall|j: int| 0 <= j < front.len() ==> front[j] == tasks[j]);
    }
}

/// `index_of_id` gives the first task of that id, and none only where no
/// task has the id.
pub proof fn index_of_id_is_first(tasks: Seq<TaskView>, id: u32)
    ensures
        match index_of_id(tasks, id) {
            Some(i) => {
                &&& i < tasks.len()
                &&& tasks[i as int].id == id
                &&& forall|j: int| 0 <= j < i ==> (#[trigger] tasks[j]).id != id
            },
            None => forall|j: int| 0 <= j < tasks.len() ==> (#[trigger] tasks[j]).id != id,
        },
    decreases tasks.len(),
{
    if tasks.len() > 0 {
        let front = tasks.drop_last();
        index_of_id_is_first(front, id);
        assert(forall|j: int| 0 <= j < front.len() ==> front[j] == tasks[j]);
    }
}

impl AppView {
    /// Whether a task of this name can be added: the name is not blank, and
    /// an id is left to give.
    pub open spec fn can_add(self, name: Seq<char>) -> bool {
        !is_blank(name) && self.next_id < u32::MAX
    }

    /// The state with `task` at the end of the list and selected, the next
    /// id used up, the text input emptied, and the focus on the list.
    pub open spec fn with_task(self, task: TaskView) -> AppView {
        AppView {
            tasks: self.tasks.push(task),
            next_id: (self.next_id + 1) as u32,
            text: Seq::empty(),
            selected_index: Some(self.tasks.len()),
            focus_textarea: false,
            ..self
        }
    }

    /// The state after `add`: a new active task that starts at the time the
    /// state works with, or no change where none can be added.
    pub open spec fn add(self, name: Seq<char>, now: nat) -> AppView {
        if self.can_add(name) {
            let seen = self.tick(now);
            seen.with_task(TaskView::new_active(seen.next_id, name, seen.clock))
        } else {
            self
        }
    }

    /// What `pause` and `resume` answer for the task with the id `id`, where
    /// `from` is the status that the command changes.
    pub open spec fn toggled(self, id: u32, from: TaskStatus) -> Toggled {
        match index_of_id(self.tasks, id) {
            Some(i) => if self.tasks[i as int].status == from {
                Toggled::Done
            } else {
                Toggled::AlreadySo
            },
            None => Toggled::NoSuchTask,
        }
    }

    /// The state after `pause`: the task with the id `id`, if it is there and
    /// active, pauses at the time the state works with. Nothing changes
    /// otherwise.
    pub open spec fn pause(self, id: u32, now: nat) -> AppView {
        if self.toggled(id, TaskStatus::Active) == Toggled::Done {
            let seen = self.tick(now);
            let i = index_of_id(self.tasks, id)->0 as int;
            AppView { tasks: seen.tasks.update(i, seen.tasks[i].paused(seen.clock)), ..seen }
        } else {
            self
        }
    }

    /// The state after `resume`: the task with the id `id`, if it is there
    /// and paused, resumes at the time the state works with. Nothing changes
    /// otherwise.
    pub open spec fn resume(self, id: u32, now: nat) -> AppView {
        if self.toggled(id, TaskStatus::Paused) == Toggled::Done {
            let seen = self.tick(now);
            let i = index_of_id(self.tasks, id)->0 as int;
            AppView { tasks: seen.tasks.update(i, seen.tasks[i].resumed(seen.clock)), ..seen }
        } else {
            self
        }
    }

    /// The selection after the task at `index` has left a list of more than
    /// one task: the same place, or the last one if that place is gone.
    pub open spec fn selection_after_removal(self, index: nat) -> Option<nat> {
        if self.tasks.len() <= 1 {
            None
        } else if index >= self.tasks.len() - 1 {
            Some((self.tasks.len() - 2) as nat)
        } else {
            Some(index)
        }
    }

    /// The state after `remove_at`: the task at `index` and its break record
    /// are gone, and the selection is at that place or at the last one. An
    /// index past the end changes nothing.
    pub open spec fn remove_at(self, index: nat) -> AppView {
        if index < self.tasks.len() {
            AppView {
                tasks: self.tasks.remove(index as int),
                breaks: self.breaks.remove(self.tasks[index as int].id),
                selected_index: self.selection_after_removal(index),
                ..self
            }
        } else {
            self
        }
    }

    /// The state after `select`: the selection is `index`, unless that
    /// points past the end.
    pub open spec fn select(self, index: Option<nat>) -> AppView {
        match index {
            Some(i) => if i < self.tasks.len() {
                AppView { selected_index: index, ..self }
            } else {
                self
            },
            None => AppView { selected_index: None, ..self },
        }
    }

    /// The selection moved by `delta` places, stopping at either end of the
    /// list. With nothing selected the move starts before the first task.
    pub open spec fn moved(self, delta: int) -> Option<nat> {
        let last = self.tasks.len() - 1;
        match self.selected_index {
            Some(i) => if i + delta < 0 {
                Some(0)
            } else if i + delta > last {
                Some(last as nat)
            } else {
                Some((i + delta) as nat)
            },
            None => if delta <= 0 || self.tasks.len() == 0 {
                None
            } else if delta - 1 > last {
                Some(last as nat)
            } else {
                Some((delta - 1) as nat)
            },
        }
    }

    /// The state after `move_selection`.
    pub open spec fn move_selection(self, delta: int) -> AppView {
        AppView { selected_index: self.moved(delta), ..self }
    }
}

impl App {
    /// The place of the first task called `name`, if there is one.
    pub fn find_by_name(&self, name: &String) -> (found: Option<usize>)
        ensures
            index_view(found) == index_of_name(self@.tasks, name@),
            found matches Some(i) ==> i < self.tasks.len() && self.tasks[i as int].name@ == name@,
    {
        let mut i: usize = 0;
        while i < self.tasks.len()
            invariant
                i <= self.tasks.len(),
                forall|j: int| 0 <= j < i ==> (#[trigger] self@.tasks[j]).name != name@,
            decreases self.tasks.len() - i,
        {
            if self.tasks[i].name == *name {
                proof {
                    index_of_name_is_first(self@.tasks, name@);
                    assert(self@.tasks[i as int].name == name@);
                }
                return Some(i);
            }
            i = i + 1;
        }
        proof {
            index_of_name_is_first(self@.tasks, name@);
        }
        None
    }

    /// The place of the task with the id `id`, if there is one.
    pub fn find_by_id(&self, id: u32) -> (found: Option<usize>)
        ensures
            index_view(found) == index_of_id(self@.tasks, id),
            found matches Some(i) ==> i < self.tasks.len() && self.tasks[i as int].id == id,
    {
        let mut i: usize = 0;
        while i < self.tasks.len()
            invariant
                i <= self.tasks.len(),
                forall|j: int| 0 <= j < i ==> (#[trigger] self@.tasks[j]).id != id,
            decreases self.tasks.len() - i,
        {
            if self.tasks[i].id == id {
                proof {
                    index_of_id_is_first(self@.tasks, id);
                    assert(self@.tasks[i as int].id == id);
                }
                return Some(i);
            }
            i = i + 1;
        }
        proof {
            index_of_id_is_first(self@.tasks, id);
        }
        None
    }

    /// Adds a task called `name` that starts work at `now`, selects it,
    /// empties the text input, and gives the task's id. Where the name is
    /// blank, or no id is left, nothing changes and no id is given.
    pub fn add(&mut self, name: String, now: u64) -> (id: Option<u32>)
        requires
            old(self)@.wf(),
        ensures
            final(self)@ == old(self)@.add(name@, now as nat),
            final(self)@.wf(),
            id == if old(self)@.can_add(name@) {
                Some(old(self)@.next_id)
            } else {
                None
            },
    {
        if name_is_blank(name.as_str()) || self.next_id == u32::MAX {
            return None;
        }
        let reading = self.tick(now);
        let id = self.next_id;
        self.push_task(Task::new_active(id, name, reading));
        Some(id)
    }

    /// Pauses the task with the id `id` at `now`: the stretch that was
    /// running goes into its time spent. A task that is paused stays as it
    /// is, and so does the list where no task has the id.
    pub fn pause(&mut self, id: u32, now: u64) -> (outcome: Toggled)
        requires
            old(self)@.wf(),
        ensures
            final(self)@ == old(self)@.pause(id, now as nat),
            final(self)@.wf(),
            outcome == old(self)@.toggled(id, TaskStatus::Active),
    {
        match self.find_by_id(id) {
            None => Toggled::NoSuchTask,
            Some(i) => match self.tasks[i].status {
                TaskStatus::Paused => Toggled::AlreadySo,
                TaskStatus::Active => {
                    let ghost before = self@;
                    let reading = self.tick(now);
                    let ghost seen = self@;
                    self.tasks[i].pause(reading);
                    proof {
                        let changed_task = seen.tasks[i as int].paused(seen.clock);
                        assert(self@.tasks =~= seen.tasks.update(i as int, changed_task));
                        before.pause_keeps_wf(id, now as nat);
                    }
                    Toggled::Done
                },
            },
        }
    }

    /// Resumes the task with the id `id` at `now`: a new stretch begins. A
    /// task that is active stays as it is, and so does the list where no task
    /// has the id.
    pub fn resume(&mut self, id: u32, now: u64) -> (outcome: Toggled)
        requires
            old(self)@.wf(),
        ensures
            final(self)@ == old(self)@.resume(id, now as nat),
            final(self)@.wf(),
            outcome == old(self)@.toggled(id, TaskStatus::Paused),
    {
        match self.find_by_id(id) {
            None => Toggled::NoSuchTask,
            Some(i) => match self.tasks[i].status {
                TaskStatus::Active => Toggled::AlreadySo,
                TaskStatus::Paused => {
                    let ghost before = self@;
                    let reading = self.tick(now);
                    let ghost seen = self@;
                    self.tasks[i].resume(reading);
                    proof {
                        let changed_task = seen.tasks[i as int].resumed(seen.clock);
                        assert(self@.tasks =~= seen.tasks.update(i as int, changed_task));
                        before.resume_keeps_wf(id, now as nat);
                    }
                    Toggled::Done
                },
            },
        }
    }

    /// Removes the task at `index` together with its break record, and
    /// gives its id. The selection stays at that place, or goes to the last
    /// task if the place is gone, or to none if the list is empty. An
    /// index past the end changes nothing and gives no id.
    pub fn remove_at(&mut self, index: usize) -> (removed: Option<u32>)
        requires
            old(self)@.wf(),
        ensures
            final(self)@ == old(self)@.remove_at(index as nat),
            final(self)@.wf(),
            removed == if index < old(self)@.tasks.len() {
                Some(old(self)@.tasks[index as int].id)
            } else {
                None
            },
    {
        if index >= self.tasks.len() {
            return None;
        }
        let ghost before = self@;
        let task = self.tasks.remove(index);
        self.breaks.remove(&task.id);
        self.selected_index = if self.tasks.len() == 0 {
            None
        } else if index >= self.tasks.len() {
            Some(self.tasks.len() - 1)
        } else {
            Some(index)
        };
        proof {
            let after = self@;
            assert(after.tasks =~= before.tasks.remove(index as int));
            assert(after.breaks =~= before.breaks.remove(task.id));
            before.removal_keeps_wf(index as nat);
        }
        Some(task.id)
    }

    /// Selects the task at `index`, or none. An index past the end changes
    /// nothing. Says whether the selection is now what was asked for.
    pub fn select(&mut self, index: Option<usize>) -> (accepted: bool)
        requires
            old(self)@.wf(),
        ensures
            final(self)@ == old(self)@.select(index_view(index)),
            final(self)@.wf(),
            accepted == (index matches Some(i) ==> i < old(self)@.tasks.len()),
    {
        match index {
            Some(i) => {
                if i < self.tasks.len() {
                    self.selected_index = index;
                    true
                } else {
                    false
                }
            },
            None => {
                self.selected_index = None;
                true
            },
        }
    }

    /// Moves the selection by `delta` places, down the list for a positive
    /// `delta` and up for a negative one. It stops at either end. With
    /// nothing selected, a move down starts before the first task.
    pub fn move_selection(&mut self, delta: i64)
        requires
            old(self)@.wf(),
        ensures
            final(self)@ == old(self)@.move_selection(delta as int),
            final(self)@.wf(),
    {
        let len = self.tasks.len();
        match self.selected_index {
            Some(i) => {
                if delta >= 0 {
                    let room: usize = len - 1 - i;
                    if delta as u64 >= room as u64 {
                        self.selected_index = Some(len - 1);
                    } else {
                        self.selected_index = Some(i + delta as usize);
                    }
                } else {
                    let back: u64 = (-(delta + 1)) as u64 + 1;
                    if back >= i as u64 {
                        self.selected_index = Some(0);
                    } else {
                        self.selected_index = Some(i - back as usize);
                    }
                }
            },
            None => {
                if delta > 0 && len > 0 {
                    let steps: u64 = (delta - 1) as u64;
                    if steps >= (len - 1) as u64 {
                        self.selected_index = Some(len - 1);
                    } else {
                        self.selected_index = Some(steps as usize);
                    }
                }
            },
        }
    }

    /// Puts `task` at the end of the list, selects it, uses up its id,
    /// empties the text input and moves the focus to the list.
    pub(crate) fn push_task(&mut self, task: Task)
        requires
            old(self)@.wf(),
            task@.wf(),
            task@.within(old(self)@.clock),
            task@.id == old(self)@.next_id,
            old(self)@.next_id < u32::MAX,
        ensures
            final(self)@ == old(self)@.with_task(task@),
            final(self)@.wf(),
    {
        let ghost before = self@;
        self.tasks.push(task);
        self.next_id = self.next_id + 1;
        self.textarea = empty_input();
        self.selected_index = Some(self.tasks.len() - 1);
        self.focus_textarea = false;
        proof {
            assert(self@.tasks =~= before.tasks.push(task@));
            assert(self@.text =~= Seq::<char>::empty());
            before.with_task_keeps_wf(task@);
        }
    }
}

impl AppView {
    /// A task of `before` is a task of any state that has the ids of
    /// `before` in their places.
    pub proof fn task_is_kept(self, before: AppView, id: u32)
        requires
            before.has_task(id),
            self.tasks.len() >= before.tasks.len(),
            forall|i: int|
                0 <= i < before.tasks.len() ==> (#[trigger] self.tasks[i]).id == before.tasks[i].id,
        ensures
            self.has_task(id),
    {
        let i = choose|i: int| 0 <= i < before.tasks.len() && (#[trigger] before.tasks[i]).id == id;
        assert(self.tasks[i].id == id);
    }

    /// Seeing a time keeps the state well formed.
    pub proof fn tick_keeps_wf(self, now: nat)
        requires
            self.wf(),
        ensures
            self.tick(now).wf(),
    {
    }

    /// A well-formed task that carries the next id, with times that the
    /// clock has reached, can join a well-formed state.
    pub proof fn with_task_keeps_wf(self, task: TaskView)
        requires
            self.wf(),
            task.wf(),
            task.within(self.clock),
            task.id == self.next_id,
            self.next_id < u32::MAX,
        ensures
            self.with_task(task).wf(),
    {
        let after = self.with_task(task);
        assert forall|id: u32| #[trigger] after.breaks.contains_key(id) implies after.has_task(
            id,
        ) by {
            after.task_is_kept(self, id);
        }
    }

    /// Adding a task keeps the state well formed.
    pub proof fn add_keeps_wf(self, name: Seq<char>, now: nat)
        requires
            self.wf(),
        ensures
            self.add(name, now).wf(),
    {
        if self.can_add(name) {
            self.tick_keeps_wf(now);
            let seen = self.tick(now);
            seen.with_task_keeps_wf(TaskView::new_active(seen.next_id, name, seen.clock));
        }
    }

    /// Pausing a task keeps the state well formed.
    pub proof fn pause_keeps_wf(self, id: u32, now: nat)
        requires
            self.wf(),
        ensures
            self.pause(id, now).wf(),
    {
        if self.toggled(id, TaskStatus::Active) == Toggled::Done {
            self.tick_keeps_wf(now);
            index_of_id_is_first(self.tasks, id);
            self.pause(id, now).same_ids_keep_wf(self.tick(now));
        }
    }

    /// Resuming a task keeps the state well formed.
    pub proof fn resume_keeps_wf(self, id: u32, now: nat)
        requires
            self.wf(),
        ensures
            self.resume(id, now).wf(),
    {
        if self.toggled(id, TaskStatus::Paused) == Toggled::Done {
            self.tick_keeps_wf(now);
            index_of_id_is_first(self.tasks, id);
            self.resume(id, now).same_ids_keep_wf(self.tick(now));
        }
    }

    /// Selecting keeps the state well formed.
    pub proof fn select_keeps_wf(self, index: Option<nat>)
        requires
            self.wf(),
        ensures
            self.select(index).wf(),
    {
        self.select(index).same_tasks_keep_wf(self);
    }

    /// Moving the selection keeps the state well formed.
    pub proof fn move_selection_keeps_wf(self, delta: int)
        requires
            self.wf(),
        ensures
            self.move_selection(delta).wf(),
    {
        self.move_selection(delta).same_tasks_keep_wf(self);
    }

    /// A state that has the tasks, the break records and the clock of the
    /// well-formed `before`, and a selection that points at a task, is well
    /// formed.
    pub proof fn same_tasks_keep_wf(self, before: AppView)
        requires
            before.wf(),
            self.tasks == before.tasks,
            self.next_id == before.next_id,
            self.clock == before.clock,
            self.selected_index matches Some(i) ==> i < self.tasks.len(),
            self.breaks == before.breaks,
        ensures
            self.wf(),
    {
    }

    /// A state that differs from the well-formed `before` only in tasks that
    /// kept their ids, and are well formed within the clock, is well formed.
    /// The clock is that of `before`.
    pub proof fn same_ids_keep_wf(self, before: AppView)
        requires
            before.wf(),
            self.tasks.len() == before.tasks.len(),
            forall|i: int|
                0 <= i < self.tasks.len() ==> {
                    &&& (#[trigger] self.tasks[i]).id == before.tasks[i].id
                    &&& self.tasks[i].wf()
                    &&& self.tasks[i].within(self.clock)
                },
            self.next_id == before.next_id,
            self.clock == before.clock,
            self.selected_index == before.selected_index,
            self.breaks == before.breaks,
        ensures
            self.wf(),
    {
        assert forall|id: u32| #[trigger] self.breaks.contains_key(id) implies self.has_task(
            id,
        ) by {
            self.task_is_kept(before, id);
        }
    }

    /// Removing a task together with its break record keeps the state well
    /// formed.
    pub proof fn removal_keeps_wf(self, index: nat)
        requires
            self.wf(),
        ensures
            self.remove_at(index).wf(),
    {
        if index < self.tasks.len() {
            let after = self.remove_at(index);
            let gone = self.tasks[index as int].id;
            assert forall|i: int| 0 <= i < after.tasks.len() implies {
                &&& (#[trigger] after.tasks[i]).wf()
                &&& after.tasks[i].id < after.next_id
                &&& after.tasks[i].within(after.clock)
            } by {
                if i < index {
                    assert(after.tasks[i] == self.tasks[i]);
                } else {
                    assert(after.tasks[i] == self.tasks[i + 1]);
                }
            }
            assert forall|i: int, j: int| 0 <= i < j < after.tasks.len() implies (
            #[trigger] after.tasks[i]).id < (#[trigger] after.tasks[j]).id by {
                let from_i = if i < index { i } else { i + 1 };
                let from_j = if j < index { j } else { j + 1 };
                assert(after.tasks[i] == self.tasks[from_i]);
                assert(after.tasks[j] == self.tasks[from_j]);
            }
            assert forall|id: u32| #[trigger] after.breaks.contains_key(id) implies after.breaks[id].wf()
                && after.has_task(id) by {
                assert(self.breaks.contains_key(id) && id != gone);
                assert(self.has_task(id));
                let i = choose|i: int|
                    0 <= i < self.tasks.len() && (#[trigger] self.tasks[i]).id == id;
                assert(i != index);
                let to = if i < index { i } else { i - 1 };
                assert(after.tasks[to] == self.tasks[i]);
            }
        }
    }
}

} // verus!
