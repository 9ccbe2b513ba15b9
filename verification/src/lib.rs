//! Chronos: the timing core of a personal productivity timer.
//!
//! A user keeps a list of named tasks and toggles each between active and
//! paused. The crate tracks the time worked on every task and, while a task
//! is paused, walks its break through three tiers (five minutes, five
//! minutes, fifteen minutes) until the break is exceeded.
//!
//! All times are nanoseconds on a monotonic clock that starts at zero
//! (see [`clock::Clock`]). Every function that needs the current time takes
//! it as an argument, so the whole state machine is a function of its inputs.
//!
//! - [`clock`]: the unit of time, the lengths the rules name, the clock.
//! - [`names`]: which task names are blank.
//! - [`task`]: a task, and the time worked on it as of any moment.
//! - [`tiers`]: the break record of one task and its three tiers.
//! - [`app`]: the state as a whole, its model, and what makes it well formed.
//! - [`registry`]: adding, finding, pausing, resuming, removing, selecting.
//! - [`tracker`]: the break records of the tasks, and looking at them.
//! - [`dispatch`]: the commands, and what each does and answers.
//! - [`input`]: the text input in which names are typed.
//! - [`keys`]: what a key press asks for, and taking one.
//! - [`display`]: what a screen is given to show.
//! - [`wellformed`]: telling at run time whether a state is well formed.
//! - [`laws`]: what holds of all of it, whatever is done in whatever order.

pub mod app;
pub mod clock;
pub mod dispatch;
pub mod display;
pub mod input;
pub mod keys;
pub mod laws;
pub mod names;
pub mod registry;
pub mod task;
pub mod tiers;
pub mod tracker;
pub mod wellformed;
