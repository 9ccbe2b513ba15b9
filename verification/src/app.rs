//! The state of the whole application: the tasks in their order, the break
//! records beside them, the selection, and what the screen is to show.

use crate::input::{empty_input, input_text, TextInput};
use crate::task::{Task, TaskView};
use crate::tiers::{Break, BreakView};
use std::collections::HashMap;
use vstd::prelude::*;

verus! {

/// Which of the two screens is shown.
#[derive(Debug, Clone, Copy, PartialEq, Eq, Structural)]
pub enum Mode {
    Tasks,
    Timer,
}

/// A command that asked for the state a task is already in.
#[derive(Debug, Clone, Copy, PartialEq, Eq, Structural)]
pub enum Warning {
    /// A pause of a task that is paused.
    DuplicatePause,
    /// A resume of a task that is active.
    DuplicateResume,
}

/// The one state that every command works on.
#[derive(Debug)]
pub struct App {
    /// The tasks, in the order in which they were added.
    pub tasks: Vec<Task>,
    /// The id that the next task gets.
    pub next_id: u32,
    /// The text input, in which the name of a task is typed.
    pub textarea: TextInput,
    /// Whether keys go to the text input rather than to the task list.
    pub focus_textarea: bool,
    /// The place of the selected task in `tasks`, if one is selected.
    pub selected_index: Option<usize>,
    /// The warning that the screen is to show, if any.
    pub warning: Option<Warning>,
    /// Whether the screen is to say that a task was resumed.
    pub show_green_log: bool,
    /// The name of the task that was resumed last from the timer screen.
    pub green_log_task: Option<String>,
    /// The break record of each task that has been paused, by the task's id.
    pub breaks: HashMap<u32, Break>,
    pub mode: Mode,
    /// The latest time that the state has seen.
    pub clock: u64,
}

/// Mathematical model of the application state.
pub struct AppView {
    pub tasks: Seq<TaskView>,
    pub next_id: u32,
    /// The text that the text input holds.
    pub text: Seq<char>,
    pub focus_textarea: bool,
    pub selected_index: Option<nat>,
    pub warning: Option<Warning>,
    pub show_green_log: bool,
    pub green_log_task: Option<Seq<char>>,
    pub breaks: Map<u32, BreakView>,
    pub mode: Mode,
    pub clock: nat,
}

impl TaskView {
    /// The task's times lie at or before `clock`.
    pub open spec fn within(self, clock: nat) -> bool {
        match self.started_at {
            Some(since) => since <= clock,
            None => self.time_spent <= clock,
        }
    }
}

impl AppView {
    /// The state before the first command.
    pub open spec fn initial() -> AppView {
        AppView {
            tasks: Seq::empty(),
            next_id: 1,
            text: Seq::empty(),
            focus_textarea: true,
            selected_index: None,
            warning: None,
            show_green_log: false,
            green_log_task: None,
            breaks: Map::empty(),
            mode: Mode::Tasks,
            clock: 0,
        }
    }

    /// Whether some task has the id `id`.
    pub open spec fn has_task(self, id: u32) -> bool {
        exists|i: int| 0 <= i < self.tasks.len() && (#[trigger] self.tasks[i]).id == id
    }

    /// Every task is well formed, with times that the clock has reached;
    /// the ids grow along the list and stay below the next one; a selection
    /// points at a task; every break record is well formed, shows nothing
    /// past the clock, and belongs to a task of the list.
    pub open spec fn wf(self) -> bool {
        &&& self.next_id >= 1
        &&& forall|i: int|
            0 <= i < self.tasks.len() ==> {
                &&& (#[trigger] self.tasks[i]).wf()
                &&& self.tasks[i].id < self.next_id
                &&& self.tasks[i].within(self.clock)
            }
        &&& forall|i: int, j: int|
            0 <= i < j < self.tasks.len() ==> (#[trigger] self.tasks[i]).id < (
            #[trigger] self.tasks[j]).id
        &&& self.selected_index matches Some(i) ==> i < self.tasks.len()
        &&& self.breaks.dom().finite()
        &&& forall|id: u32| #[trigger]
            self.breaks.contains_key(id) ==> {
                &&& self.breaks[id].wf()
                &&& self.breaks[id].within(self.clock)
                &&& self.has_task(id)
            }
    }

    /// The time that a command given `now` works with: `now`, or the latest
    /// time seen before if that is later.
    pub open spec fn reading(self, now: nat) -> nat {
        if now >= self.clock {
            now
        } else {
            self.clock
        }
    }

    /// The state after it has seen the time `now`.
    pub open spec fn tick(self, now: nat) -> AppView {
        AppView { clock: self.reading(now), ..self }
    }
}

/// The model of a place in the list, or of none.
pub open spec fn index_view(index: Option<usize>) -> Option<nat> {
    match index {
        Some(i) => Some(i as nat),
        None => None,
    }
}

/// The model of a name, or of none.
pub open spec fn name_view(name: Option<String>) -> Option<Seq<char>> {
    match name {
        Some(s) => Some(s@),
        None => None,
    }
}

impl View for App {
    type V = AppView;

    open spec fn view(&self) -> AppView {
        AppView {
            tasks: self.tasks@.map_values(|t: Task| t@),
            next_id: self.next_id,
            text: input_text(self.textarea),
            focus_textarea: self.focus_textarea,
            selected_index: index_view(self.selected_index),
            warning: self.warning,
            show_green_log: self.show_green_log,
            green_log_task: name_view(self.green_log_task),
            breaks: self.breaks@.map_values(|b: Break| b@),
            mode: self.mode,
            clock: self.clock as nat,
        }
    }
}

impl App {
    /// The state before the first command: no task, no selection, the text
    /// input empty and in focus, the task screen shown, the clock at zero.
    pub fn new() -> (app: App)
        ensures
            app@ == AppView::initial(),
            app@.wf(),
    {
        let app = App {
            tasks: Vec::new(),
            next_id: 1,
            textarea: empty_input(),
            focus_textarea: true,
            selected_index: None,
            warning: None,
            show_green_log: false,
            green_log_task: None,
            breaks: HashMap::new(),
            mode: Mode::Tasks,
            clock: 0,
        };
        assert(app@.tasks =~= Seq::<TaskView>::empty());
        assert(app@.breaks =~= Map::<u32, BreakView>::empty());
        app
    }

    /// Whether the screen is to show a warning.
    pub fn show_popup(&self) -> (shown: bool)
        ensures
            shown == self@.warning.is_some(),
    {
        self.warning.is_some()
    }

    /// Takes note of the time `now` and gives the time to work with: `now`,
    /// or the latest time seen before if that is later.
    pub fn tick(&mut self, now: u64) -> (reading: u64)
        requires
            old(self)@.wf(),
        ensures
            final(self)@ == old(self)@.tick(now as nat),
            final(self)@.wf(),
            reading == old(self)@.reading(now as nat),
    {
        if now > self.clock {
            self.clock = now;
        }
        self.clock
    }
}

} // verus!
