//! The command dispatcher: what each command does to the state.

use crate::app::{App, AppView, Mode, Warning};
use crate::names::{is_blank, name_is_blank};
use crate::registry::{index_of_name, index_of_name_is_first};
use crate::task::{Task, TaskStatus, TaskView};
use vstd::prelude::*;

verus! {

/// What a user can ask for, whatever key or gesture asked for it.
#[derive(Debug, PartialEq, Eq)]
pub enum Command {
    /// Add a task of this name and start work on it.
    Add(String),
    /// Pause the task of this name; if there is none, add one on its break.
    AddOrPause(String),
    /// Resume the task of this name; if there is none, add one at work.
    AddOrResume(String),
    /// Remove the task at this place in the list.
    Delete(usize),
    /// Move the selection by this many places, down if positive.
    MoveSelection(i64),
    /// Move the focus between the text input and the list.
    ToggleFocus,
    /// Show the other screen.
    SwitchView,
    /// Close the warning if one is shown, else leave.
    Escape,
}

/// Mathematical model of a command.
pub enum CommandView {
    Add(Seq<char>),
    AddOrPause(Seq<char>),
    AddOrResume(Seq<char>),
    Delete(nat),
    MoveSelection(int),
    ToggleFocus,
    SwitchView,
    Escape,
}

impl View for Command {
    type V = CommandView;

    open spec fn view(&self) -> CommandView {
        match *self {
            Command::Add(name) => CommandView::Add(name@),
            Command::AddOrPause(name) => CommandView::AddOrPause(name@),
            Command::AddOrResume(name) => CommandView::AddOrResume(name@),
            Command::Delete(index) => CommandView::Delete(index as nat),
            Command::MoveSelection(delta) => CommandView::MoveSelection(delta as int),
            Command::ToggleFocus => CommandView::ToggleFocus,
            Command::SwitchView => CommandView::SwitchView,
            Command::Escape => CommandView::Escape,
        }
    }
}

/// What a command did.
#[derive(Debug, Clone, Copy, PartialEq, Eq, Structural)]
pub enum Outcome {
    /// Nothing: the command asked for what cannot be done, and the state is
    /// as it was.
    Ignored,
    /// A task with this id was added at work, and is selected; the text
    /// input is empty.
    Added(u32),
    /// A task with this id was added on its break, and is selected; the
    /// text input is empty.
    AddedPaused(u32),
    /// The task with this id was paused.
    Paused(u32),
    /// The task with this id was resumed.
    Resumed(u32),
    /// The task was in the state asked for; the warning is now shown.
    Warned(Warning),
    /// The task with this id was removed, and its break record with it.
    Deleted(u32),
    /// The selection is where the move took it.
    SelectionMoved,
    FocusToggled,
    ViewSwitched,
    /// The warning was closed.
    WarningDismissed,
    /// The user wants to leave.
    Quit,
}

/// The other screen.
pub open spec fn other_mode(mode: Mode) -> Mode {
    match mode {
        Mode::Tasks => Mode::Timer,
        Mode::Timer => Mode::Tasks,
    }
}

impl AppView {
    /// The state after `AddOrPause`. An active task of that name is paused
    /// and its break is noted; a paused one raises the warning; where no
    /// task has the name, one is added on its break. A blank name changes
    /// nothing.
    pub open spec fn add_or_pause(self, name: Seq<char>, now: nat) -> AppView {
        if is_blank(name) {
            self
        } else {
            match index_of_name(self.tasks, name) {
                Some(i) => {
                    let task = self.tasks[i as int];
                    if task.status == TaskStatus::Active {
                        self.pause(task.id, now).on_pause(task.id, now)
                    } else {
                        AppView { warning: Some(Warning::DuplicatePause), ..self }
                    }
                },
                None => if self.next_id < u32::MAX {
                    self.tick(now).with_task(TaskView::new_paused(self.next_id, name)).on_pause(
                        self.next_id,
                        now,
                    )
                } else {
                    self
                },
            }
        }
    }

    /// The state after `AddOrResume`. A paused task of that name is resumed,
    /// which the timer screen takes note of; an active one raises the
    /// warning; where no task has the name, one is added at work. A blank
    /// name changes nothing.
    pub open spec fn add_or_resume(self, name: Seq<char>, now: nat) -> AppView {
        if is_blank(name) {
            self
        } else {
            match index_of_name(self.tasks, name) {
                Some(i) => {
                    let task = self.tasks[i as int];
                    if task.status == TaskStatus::Paused {
                        let resumed = self.resume(task.id, now);
                        if self.mode == Mode::Timer {
                            AppView {
                                show_green_log: true,
                                green_log_task: Some(name),
                                ..resumed
                            }
                        } else {
                            resumed
                        }
                    } else {
                        AppView { warning: Some(Warning::DuplicateResume), ..self }
                    }
                },
                None => self.add(name, now),
            }
        }
    }

    /// The state after a command given at `now`.
    pub open spec fn dispatch(self, command: CommandView, now: nat) -> AppView {
        match command {
            CommandView::Add(name) => self.add(name, now),
            CommandView::AddOrPause(name) => self.add_or_pause(name, now),
            CommandView::AddOrResume(name) => self.add_or_resume(name, now),
            CommandView::Delete(index) => self.remove_at(index),
            CommandView::MoveSelection(delta) => self.move_selection(delta),
            CommandView::ToggleFocus => AppView { focus_textarea: !self.focus_textarea, ..self },
            CommandView::SwitchView => AppView { mode: other_mode(self.mode), ..self },
            CommandView::Escape => AppView { warning: None, ..self },
        }
    }

    /// What a command given to this state does.
    pub open spec fn outcome(self, command: CommandView) -> Outcome {
        match command {
            CommandView::Add(name) => if self.can_add(name) {
                Outcome::Added(self.next_id)
            } else {
                Outcome::Ignored
            },
            CommandView::AddOrPause(name) => if is_blank(name) {
                Outcome::Ignored
            } else {
                match index_of_name(self.tasks, name) {
                    Some(i) => if self.tasks[i as int].status == TaskStatus::Active {
                        Outcome::Paused(self.tasks[i as int].id)
                    } else {
                        Outcome::Warned(Warning::DuplicatePause)
                    },
                    None => if self.next_id < u32::MAX {
                        Outcome::AddedPaused(self.next_id)
                    } else {
                        Outcome::Ignored
                    },
                }
            },
            CommandView::AddOrResume(name) => if is_blank(name) {
                Outcome::Ignored
            } else {
                match index_of_name(self.tasks, name) {
                    Some(i) => if self.tasks[i as int].status == TaskStatus::Paused {
                        Outcome::Resumed(self.tasks[i as int].id)
                    } else {
                        Outcome::Warned(Warning::DuplicateResume)
                    },
                    None => if self.next_id < u32::MAX {
                        Outcome::Added(self.next_id)
                    } else {
                        Outcome::Ignored
                    },
                }
            },
            CommandView::Delete(index) => if index < self.tasks.len() {
                Outcome::Deleted(self.tasks[index as int].id)
            } else {
                Outcome::Ignored
            },
            CommandView::MoveSelection(_) => Outcome::SelectionMoved,
            CommandView::ToggleFocus => Outcome::FocusToggled,
            CommandView::SwitchView => Outcome::ViewSwitched,
            CommandView::Escape => if self.warning is Some {
                Outcome::WarningDismissed
            } else {
                Outcome::Quit
            },
        }
    }

    /// `AddOrPause` keeps the state well formed.
    pub proof fn add_or_pause_keeps_wf(self, name: Seq<char>, now: nat)
        requires
            self.wf(),
        ensures
            self.add_or_pause(name, now).wf(),
    {
        if !is_blank(name) {
            index_of_name_is_first(self.tasks, name);
            match index_of_name(self.tasks, name) {
                Some(i) => {
                    let id = self.tasks[i as int].id;
                    self.pause_keeps_wf(id, now);
                    self.pause(id, now).on_pause_keeps_wf(id, now);
                },
                None => {
                    if self.next_id < u32::MAX {
                        let task = TaskView::new_paused(self.next_id, name);
                        self.tick_keeps_wf(now);
                        self.tick(now).with_task_keeps_wf(task);
                        self.tick(now).with_task(task).on_pause_keeps_wf(self.next_id, now);
                    }
                },
            }
        }
    }

    /// `AddOrResume` keeps the state well formed.
    pub proof fn add_or_resume_keeps_wf(self, name: Seq<char>, now: nat)
        requires
            self.wf(),
        ensures
            self.add_or_resume(name, now).wf(),
    {
        if !is_blank(name) {
            index_of_name_is_first(self.tasks, name);
            match index_of_name(self.tasks, name) {
                Some(i) => {
                    self.resume_keeps_wf(self.tasks[i as int].id, now);
                },
                None => {
                    self.add_keeps_wf(name, now);
                },
            }
        }
    }

    /// Every command keeps the state well formed.
    pub proof fn dispatch_keeps_wf(self, command: CommandView, now: nat)
        requires
            self.wf(),
        ensures
            self.dispatch(command, now).wf(),
    {
        match command {
            CommandView::Add(name) => self.add_keeps_wf(name, now),
            CommandView::AddOrPause(name) => self.add_or_pause_keeps_wf(name, now),
            CommandView::AddOrResume(name) => self.add_or_resume_keeps_wf(name, now),
            CommandView::Delete(index) => self.removal_keeps_wf(index),
            CommandView::MoveSelection(delta) => self.move_selection_keeps_wf(delta),
            _ => self.dispatch(command, now).same_tasks_keep_wf(self),
        }
    }
}

impl App {
    /// Pauses the task called `name` at `now` and notes its break; if the
    /// task is paused already, raises the warning and leaves it alone; if no
    /// task has the name, adds one on its break. A blank name is ignored.
    pub fn add_or_pause(&mut self, name: String, now: u64) -> (outcome: Outcome)
        requires
            old(self)@.wf(),
        ensures
            final(self)@ == old(self)@.add_or_pause(name@, now as nat),
            final(self)@.wf(),
            outcome == old(self)@.outcome(CommandView::AddOrPause(name@)),
    {
        if name_is_blank(name.as_str()) {
            return Outcome::Ignored;
        }
        match self.find_by_name(&name) {
            Some(i) => {
                let id = self.tasks[i].id;
                match self.tasks[i].status {
                    TaskStatus::Active => {
                        self.pause(id, now);
                        self.on_pause(id, now);
                        Outcome::Paused(id)
                    },
                    TaskStatus::Paused => {
                        self.warning = Some(Warning::DuplicatePause);
                        Outcome::Warned(Warning::DuplicatePause)
                    },
                }
            },
            None => {
                if self.next_id == u32::MAX {
                    return Outcome::Ignored;
                }
                let id = self.next_id;
                self.tick(now);
                self.push_task(Task::new_paused(id, name));
                self.on_pause(id, now);
                Outcome::AddedPaused(id)
            },
        }
    }

    /// Resumes the task called `name` at `now`; if the task is active
    /// already, raises the warning and leaves it alone; if no task has the
    /// name, adds one at work. A blank name is ignored.
    pub fn add_or_resume(&mut self, name: String, now: u64) -> (outcome: Outcome)
        requires
            old(self)@.wf(),
        ensures
            final(self)@ == old(self)@.add_or_resume(name@, now as nat),
            final(self)@.wf(),
            outcome == old(self)@.outcome(CommandView::AddOrResume(name@)),
    {
        if name_is_blank(name.as_str()) {
            return Outcome::Ignored;
        }
        match self.find_by_name(&name) {
            Some(i) => {
                let id = self.tasks[i].id;
                match self.tasks[i].status {
                    TaskStatus::Paused => {
                        self.resume(id, now);
                        match self.mode {
                            Mode::Timer => {
                                self.show_green_log = true;
                                self.green_log_task = Some(name);
                            },
                            Mode::Tasks => {},
                        }
                        Outcome::Resumed(id)
                    },
                    TaskStatus::Active => {
                        self.warning = Some(Warning::DuplicateResume);
                        Outcome::Warned(Warning::DuplicateResume)
                    },
                }
            },
            None => match self.add(name, now) {
                Some(id) => Outcome::Added(id),
                None => Outcome::Ignored,
            },
        }
    }

    /// Carries out `command` at the time `now`, and says what it did.
    ///
    /// No command fails. One that asks for what cannot be done (a blank
    /// name, a place past the end of the list) is ignored and changes
    /// nothing; one that asks for the state a task is in already raises a
    /// warning and changes nothing else. Only the commands that add, pause
    /// or resume a task look at `now`.
    pub fn dispatch(&mut self, command: Command, now: u64) -> (outcome: Outcome)
        requires
            old(self)@.wf(),
        ensures
            final(self)@ == old(self)@.dispatch(command@, now as nat),
            final(self)@.wf(),
            outcome == old(self)@.outcome(command@),
    {
        match command {
            Command::Add(name) => match self.add(name, now) {
                Some(id) => Outcome::Added(id),
                None => Outcome::Ignored,
            },
            Command::AddOrPause(name) => self.add_or_pause(name, now),
            Command::AddOrResume(name) => self.add_or_resume(name, now),
            Command::Delete(index) => match self.remove_at(index) {
                Some(id) => Outcome::Deleted(id),
                None => Outcome::Ignored,
            },
            Command::MoveSelection(delta) => {
                self.move_selection(delta);
                Outcome::SelectionMoved
            },
            Command::ToggleFocus => {
                self.focus_textarea = !self.focus_textarea;
                Outcome::FocusToggled
            },
            Command::SwitchView => {
                self.mode = match self.mode {
                    Mode::Tasks => Mode::Timer,
                    Mode::Timer => Mode::Tasks,
                };
                Outcome::ViewSwitched
            },
            Command::Escape => {
                if self.warning.is_some() {
                    self.warning = None;
                    Outcome::WarningDismissed
                } else {
                    Outcome::Quit
                }
            },
        }
    }
}

} // verus!
