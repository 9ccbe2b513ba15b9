//! From keys to commands: what a key means in the state it is pressed in.

use crate::app::{App, AppView, Mode};
use crate::dispatch::{Command, CommandView, Outcome};
use crate::input::{key_of, pressed_key, text_of, type_key};
use vstd::prelude::*;

verus! {

/// A key press, as far as its meaning goes.
#[derive(Debug, Clone, Copy, PartialEq, Eq)]
pub enum Key {
    Esc,
    Enter,
    Tab,
    Delete,
    Up,
    Down,
    /// A character key, with the character it types.
    Char(char),
    /// Any other key.
    Other,
}

/// What is to be done about a key press.
#[derive(Debug, PartialEq, Eq)]
pub enum Action {
    /// Give this command to the dispatcher.
    Run(Command),
    /// Hand the key to the text input.
    Edit,
    /// Nothing.
    Nothing,
}

/// Mathematical model of an action.
pub enum ActionView {
    Run(CommandView),
    Edit,
    Nothing,
}

impl View for Action {
    type V = ActionView;

    open spec fn view(&self) -> ActionView {
        match *self {
            Action::Run(command) => ActionView::Run(command@),
            Action::Edit => ActionView::Edit,
            Action::Nothing => ActionView::Nothing,
        }
    }
}

impl AppView {
    /// What a key that no rule claims does: it goes to the text input if
    /// that has the focus, and is dropped otherwise.
    pub open spec fn unclaimed(self) -> ActionView {
        if self.focus_textarea {
            ActionView::Edit
        } else {
            ActionView::Nothing
        }
    }

    /// What the key `key` asks for when the text input holds `text`.
    ///
    /// `Esc`, `Tab`, `Delete` and the capitals `T`, `R` always give their
    /// command, and so do `Enter` and the capital `P` on the task screen.
    /// The arrows move the selection unless the text input has the focus.
    pub open spec fn action_for(self, key: Key, text: Seq<char>) -> ActionView {
        match key {
            Key::Esc => ActionView::Run(CommandView::Escape),
            Key::Tab => ActionView::Run(CommandView::ToggleFocus),
            Key::Delete => match self.selected_index {
                Some(i) => ActionView::Run(CommandView::Delete(i)),
                None => ActionView::Nothing,
            },
            Key::Enter => if self.mode == Mode::Tasks {
                ActionView::Run(CommandView::Add(text))
            } else {
                self.unclaimed()
            },
            Key::Up => if self.focus_textarea {
                ActionView::Edit
            } else {
                ActionView::Run(CommandView::MoveSelection(-1))
            },
            Key::Down => if self.focus_textarea {
                ActionView::Edit
            } else {
                ActionView::Run(CommandView::MoveSelection(1))
            },
            Key::Char(c) => if c == 'T' {
                ActionView::Run(CommandView::SwitchView)
            } else if c == 'R' {
                ActionView::Run(CommandView::AddOrResume(text))
            } else if c == 'P' && self.mode == Mode::Tasks {
                ActionView::Run(CommandView::AddOrPause(text))
            } else {
                self.unclaimed()
            },
            Key::Other => self.unclaimed(),
        }
    }
}

impl AppView {
    /// What the state answers to the key `key`: what the command did that
    /// the key asked for, or nothing where it asked for none.
    pub open spec fn answer(self, key: Key) -> Option<Outcome> {
        match self.action_for(key, self.text) {
            ActionView::Run(command) => Some(self.outcome(command)),
            _ => None,
        }
    }

    /// Whether `after` is a state that the key `key`, pressed at `now`,
    /// can leave behind. A key that asks for a command leaves what the
    /// command leaves; a key for the text input leaves all but the text as
    /// it was; any other key leaves everything as it was.
    pub open spec fn handles(self, key: Key, now: nat, after: AppView) -> bool {
        match self.action_for(key, self.text) {
            ActionView::Run(command) => after == self.dispatch(command, now),
            ActionView::Edit => after == (AppView { text: after.text, ..self }),
            ActionView::Nothing => after == self,
        }
    }
}

impl App {
    /// Takes the key press `press` at the time `now`: carries out the
    /// command that its key asks for, with the text of the text input for
    /// a name, and says what the command did; or hands the press to the
    /// text input; or drops it.
    pub fn handle(&mut self, press: tui_textarea::Input, now: u64) -> (answer: Option<Outcome>)
        requires
            old(self)@.wf(),
        ensures
            old(self)@.handles(pressed_key(press), now as nat, final(self)@),
            final(self)@.wf(),
            answer == old(self)@.answer(pressed_key(press)),
    {
        let key = key_of(&press);
        self.handle_key(key, press, now)
    }

    /// Takes the press `press` at the time `now` as a press of the key
    /// `key`: carries out the command that the key asks for, with the text
    /// of the text input for a name, and says what the command did; or
    /// hands the press to the text input; or drops it.
    pub fn handle_key(&mut self, key: Key, press: tui_textarea::Input, now: u64) -> (answer: Option<
        Outcome,
    >)
        requires
            old(self)@.wf(),
        ensures
            old(self)@.handles(key, now as nat, final(self)@),
            final(self)@.wf(),
            answer == old(self)@.answer(key),
    {
        let text = text_of(&self.textarea);
        match self.action_for(key, text) {
            Action::Run(command) => Some(self.dispatch(command, now)),
            Action::Edit => {
                let ghost before = self@;
                type_key(&mut self.textarea, press);
                proof {
                    self@.same_tasks_keep_wf(before);
                }
                None
            },
            Action::Nothing => None,
        }
    }

    /// What a key that no rule claims does.
    fn unclaimed(&self) -> (action: Action)
        ensures
            action@ == self@.unclaimed(),
    {
        if self.focus_textarea {
            Action::Edit
        } else {
            Action::Nothing
        }
    }

    /// What the key `key` asks for when the text input holds `text`.
    pub fn action_for(&self, key: Key, text: String) -> (action: Action)
        ensures
            action@ == self@.action_for(key, text@),
    {
        match key {
            Key::Esc => Action::Run(Command::Escape),
            Key::Tab => Action::Run(Command::ToggleFocus),
            Key::Delete => match self.selected_index {
                Some(i) => Action::Run(Command::Delete(i)),
                None => Action::Nothing,
            },
            Key::Enter => match self.mode {
                Mode::Tasks => Action::Run(Command::Add(text)),
                Mode::Timer => self.unclaimed(),
            },
            Key::Up => if self.focus_textarea {
                Action::Edit
            } else {
                Action::Run(Command::MoveSelection(-1))
            },
            Key::Down => if self.focus_textarea {
                Action::Edit
            } else {
                Action::Run(Command::MoveSelection(1))
            },
            Key::Char(c) => {
                if c == 'T' {
                    Action::Run(Command::SwitchView)
                } else if c == 'R' {
                    Action::Run(Command::AddOrResume(text))
                } else if c == 'P' {
                    match self.mode {
                        Mode::Tasks => Action::Run(Command::AddOrPause(text)),
                        Mode::Timer => self.unclaimed(),
                    }
                } else {
                    self.unclaimed()
                }
            },
            Key::Other => self.unclaimed(),
        }
    }
}

} // verus!
