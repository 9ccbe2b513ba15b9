use chronos::app::{App, Mode, Warning};
use chronos::dispatch::Outcome;
use chronos::input::{join_lines, text_of as held_text};
use chronos::keys::Key as Meaning;
use chronos::task::TaskStatus;
use tui_textarea::{Input, Key};

const SECOND: u64 = 1_000_000_000;

fn press(key: Key) -> Input {
    Input { key, ctrl: false, alt: false, shift: false }
}

fn type_text(app: &mut App, text: &str, now: u64) {
    for c in text.chars() {
        assert_eq!(app.handle(press(Key::Char(c)), now), None);
    }
}

fn text_of(app: &App) -> String {
    app.textarea.area.lines().join(" ")
}

#[test]
fn typing_a_name_and_enter_adds_the_task() {
    let mut app = App::new();
    assert_eq!(text_of(&app), "");
    type_text(&mut app, "write", SECOND);
    assert_eq!(text_of(&app), "write");
    assert!(app.tasks.is_empty());
    assert_eq!(app.clock, 0);

    assert_eq!(app.handle(press(Key::Enter), 2 * SECOND), Some(Outcome::Added(1)));
    assert_eq!(app.tasks.len(), 1);
    assert_eq!(app.tasks[0].name, "write");
    assert_eq!(app.tasks[0].status, TaskStatus::Active);
    assert_eq!(app.tasks[0].started_at, Some(2 * SECOND));
    assert_eq!(text_of(&app), "");
    assert!(!app.focus_textarea);
    assert!(app.is_wf());
}

#[test]
fn enter_on_an_empty_input_adds_nothing() {
    let mut app = App::new();
    assert_eq!(app.handle(press(Key::Enter), SECOND), Some(Outcome::Ignored));
    type_text(&mut app, "   ", SECOND);
    assert_eq!(app.handle(press(Key::Enter), SECOND), Some(Outcome::Ignored));
    assert_eq!(text_of(&app), "   ");
    assert!(app.tasks.is_empty());
    assert!(app.focus_textarea);
}

#[test]
fn the_input_is_empty_again_after_a_task_is_added() {
    let mut app = App::new();
    type_text(&mut app, "a", 0);
    assert_eq!(app.handle(press(Key::Enter), 0), Some(Outcome::Added(1)));
    assert_eq!(app.handle(press(Key::Enter), 0), Some(Outcome::Ignored));
    assert_eq!(app.handle(press(Key::Tab), 0), Some(Outcome::FocusToggled));
    type_text(&mut app, "b", 0);
    assert_eq!(app.handle(press(Key::Char('P')), SECOND), Some(Outcome::AddedPaused(2)));
    assert_eq!(text_of(&app), "");
    assert_eq!(app.handle(press(Key::Char('P')), SECOND), Some(Outcome::Ignored));
    assert_eq!(app.tasks.len(), 2);
    assert_eq!(app.tasks[1].name, "b");
}

#[test]
fn the_name_stays_in_the_input_while_its_task_is_toggled() {
    let mut app = App::new();
    type_text(&mut app, "a", 0);
    app.handle(press(Key::Enter), 0);
    app.handle(press(Key::Tab), 0);
    type_text(&mut app, "a", 0);
    assert_eq!(app.handle(press(Key::Char('P')), 10 * SECOND), Some(Outcome::Paused(1)));
    assert_eq!(text_of(&app), "a");
    assert_eq!(
        app.handle(press(Key::Char('P')), 11 * SECOND),
        Some(Outcome::Warned(Warning::DuplicatePause))
    );
    assert!(app.show_popup());
    assert_eq!(app.handle(press(Key::Esc), 12 * SECOND), Some(Outcome::WarningDismissed));
    assert_eq!(app.handle(press(Key::Char('R')), 13 * SECOND), Some(Outcome::Resumed(1)));
    assert_eq!(app.tasks[0].elapsed(20 * SECOND), 17 * SECOND);
    assert_eq!(text_of(&app), "a");
    assert_eq!(app.handle(press(Key::Esc), 21 * SECOND), Some(Outcome::Quit));
}

#[test]
fn lines_of_the_input_are_joined_by_spaces() {
    let mut app = App::new();
    app.handle(press(Key::Char('T')), 0);
    assert_eq!(app.mode, Mode::Timer);
    type_text(&mut app, "deep", 0);
    assert_eq!(app.handle(press(Key::Enter), 0), None);
    type_text(&mut app, "work", 0);
    assert_eq!(text_of(&app), "deep work");
    assert_eq!(app.handle(press(Key::Char('R')), SECOND), Some(Outcome::Added(1)));
    assert_eq!(app.tasks[0].name, "deep work");
    assert_eq!(text_of(&app), "");
}

#[test]
fn arrows_edit_or_move_as_the_focus_says() {
    let mut app = App::new();
    type_text(&mut app, "a", 0);
    app.handle(press(Key::Enter), 0);
    type_text(&mut app, "b", 0);
    assert_eq!(text_of(&app), "");
    assert_eq!(app.handle(press(Key::Tab), 0), Some(Outcome::FocusToggled));
    type_text(&mut app, "b", 0);
    app.handle(press(Key::Enter), 0);
    assert_eq!(app.selected_index, Some(1));
    assert_eq!(app.handle(press(Key::Up), 0), Some(Outcome::SelectionMoved));
    assert_eq!(app.selected_index, Some(0));
    assert_eq!(app.handle(press(Key::Down), 0), Some(Outcome::SelectionMoved));
    assert_eq!(app.selected_index, Some(1));
    assert_eq!(app.handle(press(Key::Tab), 0), Some(Outcome::FocusToggled));
    assert_eq!(app.handle(press(Key::Up), 0), None);
    assert_eq!(app.selected_index, Some(1));
    assert_eq!(app.handle(press(Key::Delete), 0), Some(Outcome::Deleted(2)));
    assert_eq!(app.selected_index, Some(0));
    assert_eq!(app.handle(press(Key::Delete), 0), Some(Outcome::Deleted(1)));
    assert_eq!(app.handle(press(Key::Delete), 0), None);
}

#[test]
fn keys_without_a_meaning_are_dropped_or_typed() {
    let mut app = App::new();
    assert_eq!(app.handle(press(Key::Backspace), 0), None);
    assert_eq!(app.handle(press(Key::Null), 0), None);
    type_text(&mut app, "ab", 0);
    assert_eq!(app.handle(press(Key::Backspace), 0), None);
    assert_eq!(text_of(&app), "a");
    app.handle(press(Key::Enter), 0);
    assert!(!app.focus_textarea);
    assert_eq!(app.handle(press(Key::Char('x')), 0), None);
    assert_eq!(app.handle(press(Key::Home), 0), None);
    assert_eq!(text_of(&app), "");
    assert_eq!(app.tasks.len(), 1);
}

#[test]
fn joining_puts_a_space_between_lines() {
    let lines = |texts: &[&str]| texts.iter().map(|text| String::from(*text)).collect::<Vec<_>>();
    assert_eq!(join_lines(&lines(&[])), "");
    assert_eq!(join_lines(&lines(&[""])), "");
    assert_eq!(join_lines(&lines(&["a"])), "a");
    assert_eq!(join_lines(&lines(&["a", "b"])), "a b");
    assert_eq!(join_lines(&lines(&["", ""])), " ");
    assert_eq!(join_lines(&lines(&["a", "", "b c", ""])), "a  b c ");
    for texts in [&["x"][..], &["x", "y", "z"][..], &["", "é", " "][..]] {
        assert_eq!(join_lines(&lines(texts)), lines(texts).join(" "));
    }
}

#[test]
fn the_text_of_the_input_is_its_lines_joined() {
    let mut app = App::new();
    assert_eq!(held_text(&app.textarea), "");
    app.handle(press(Key::Char('T')), 0);
    type_text(&mut app, "one", 0);
    app.handle(press(Key::Enter), 0);
    app.handle(press(Key::Enter), 0);
    type_text(&mut app, "two", 0);
    assert_eq!(app.textarea.area.lines(), ["one", "", "two"]);
    assert_eq!(held_text(&app.textarea), "one  two");
}

#[test]
fn a_press_is_taken_for_the_key_it_is_given_as() {
    let mut app = App::new();
    type_text(&mut app, "a", 0);
    assert_eq!(
        app.handle_key(Meaning::Enter, press(Key::Char('z')), SECOND),
        Some(Outcome::Added(1))
    );
    assert_eq!(app.tasks[0].name, "a");
    app.handle_key(Meaning::Tab, press(Key::Null), SECOND);
    assert_eq!(app.handle_key(Meaning::Other, press(Key::Char('z')), SECOND), None);
    assert_eq!(held_text(&app.textarea), "z");
    app.handle_key(Meaning::Tab, press(Key::Null), SECOND);
    assert_eq!(app.handle_key(Meaning::Other, press(Key::Char('y')), SECOND), None);
    assert_eq!(held_text(&app.textarea), "z");
}

#[test]
fn a_resumed_task_counts_on_from_where_it_was() {
    const MINUTE: u64 = 60 * SECOND;
    let mut app = App::new();
    type_text(&mut app, "x", 0);
    app.handle(press(Key::Enter), 0);
    app.handle(press(Key::Tab), 0);
    type_text(&mut app, "x", 0);
    app.handle(press(Key::Char('P')), 90 * SECOND);
    app.handle(press(Key::Char('T')), 90 * SECOND);
    app.refresh(4 * MINUTE);
    let record = app.record_of(1);
    assert_eq!(app.tasks[0].time_spent, 90 * SECOND);

    assert_eq!(app.handle(press(Key::Char('R')), 5 * MINUTE), Some(Outcome::Resumed(1)));
    assert_eq!(app.tasks[0].status, TaskStatus::Active);
    assert_eq!(app.tasks[0].started_at, Some(5 * MINUTE));
    assert_eq!(app.tasks[0].time_spent, 90 * SECOND);
    assert_eq!(app.record_of(1), record);

    app.refresh(5 * MINUTE + 40 * SECOND);
    assert_eq!(app.record_of(1), record);
    assert_eq!(app.tasks[0].elapsed(5 * MINUTE + 40 * SECOND), 130 * SECOND);
    assert_eq!(app.snapshot(5 * MINUTE + 40 * SECOND).rows[0].elapsed_display, "00:02:10");
}

#[test]
fn a_resume_given_an_earlier_time_starts_at_the_latest_time_seen() {
    let mut app = App::new();
    type_text(&mut app, "x", 0);
    app.handle(press(Key::Char('P')), 100 * SECOND);
    app.handle(press(Key::Tab), 100 * SECOND);
    type_text(&mut app, "x", 100 * SECOND);
    assert_eq!(app.handle(press(Key::Char('R')), 40 * SECOND), Some(Outcome::Resumed(1)));
    assert_eq!(app.tasks[0].started_at, Some(100 * SECOND));
    assert_eq!(app.tasks[0].elapsed(100 * SECOND + 7 * SECOND), 7 * SECOND);
    assert_eq!(app.tasks[0].elapsed(47 * SECOND), 0);
}
