use chronos::app::{App, Mode};
use chronos::registry::Toggled;
use chronos::task::TaskStatus;

const SECOND: u64 = 1_000_000_000;

fn name(text: &str) -> String {
    String::from(text)
}

fn three_tasks() -> App {
    let mut app = App::new();
    app.add(name("a"), SECOND);
    app.add(name("b"), 2 * SECOND);
    app.add(name("c"), 3 * SECOND);
    app
}

#[test]
fn a_new_state_is_empty() {
    let app = App::new();
    assert!(app.tasks.is_empty());
    assert_eq!(app.next_id, 1);
    assert!(app.focus_textarea);
    assert_eq!(app.selected_index, None);
    assert_eq!(app.warning, None);
    assert!(!app.show_popup());
    assert!(!app.show_green_log);
    assert_eq!(app.green_log_task, None);
    assert!(app.breaks.is_empty());
    assert_eq!(app.mode, Mode::Tasks);
    assert_eq!(app.clock, 0);
}

#[test]
fn add_appends_selects_and_numbers_from_one() {
    let mut app = App::new();
    assert_eq!(app.add(name("Write"), 5 * SECOND), Some(1));
    assert_eq!(app.add(name("Read"), 6 * SECOND), Some(2));
    assert_eq!(app.tasks.len(), 2);
    assert_eq!(app.tasks[0].id, 1);
    assert_eq!(app.tasks[1].id, 2);
    assert_eq!(app.tasks[1].name, "Read");
    assert_eq!(app.tasks[1].status, TaskStatus::Active);
    assert_eq!(app.tasks[1].started_at, Some(6 * SECOND));
    assert_eq!(app.tasks[1].time_spent, 0);
    assert_eq!(app.next_id, 3);
    assert_eq!(app.selected_index, Some(1));
    assert!(!app.focus_textarea);
    assert_eq!(app.clock, 6 * SECOND);
}

#[test]
fn add_ignores_a_blank_name() {
    let mut app = App::new();
    assert_eq!(app.add(name(""), SECOND), None);
    assert_eq!(app.add(name("   "), 2 * SECOND), None);
    assert_eq!(app.add(name("\t\n"), 3 * SECOND), None);
    assert!(app.tasks.is_empty());
    assert_eq!(app.next_id, 1);
    assert_eq!(app.selected_index, None);
    assert!(app.focus_textarea);
}

#[test]
fn add_keeps_the_name_as_it_was_typed() {
    let mut app = App::new();
    assert_eq!(app.add(name(" Write "), SECOND), Some(1));
    assert_eq!(app.tasks[0].name, " Write ");
    assert_eq!(app.find_by_name(&name("Write")), None);
    assert_eq!(app.find_by_name(&name(" Write ")), Some(0));
}

#[test]
fn add_stops_when_the_ids_run_out() {
    let mut app = App::new();
    app.next_id = u32::MAX - 1;
    assert_eq!(app.add(name("last"), SECOND), Some(u32::MAX - 1));
    assert_eq!(app.next_id, u32::MAX);
    assert_eq!(app.add(name("one too many"), SECOND), None);
    assert_eq!(app.tasks.len(), 1);
    assert_eq!(app.next_id, u32::MAX);
}

#[test]
fn ids_are_never_given_twice() {
    let mut app = three_tasks();
    assert_eq!(app.remove_at(2), Some(3));
    assert_eq!(app.add(name("d"), 4 * SECOND), Some(4));
    assert_eq!(app.tasks[2].id, 4);
}

#[test]
fn find_by_name_gives_the_first_match() {
    let mut app = three_tasks();
    app.add(name("b"), 4 * SECOND);
    assert_eq!(app.find_by_name(&name("a")), Some(0));
    assert_eq!(app.find_by_name(&name("b")), Some(1));
    assert_eq!(app.find_by_name(&name("c")), Some(2));
    assert_eq!(app.find_by_name(&name("B")), None);
    assert_eq!(app.find_by_name(&name("")), None);
    assert_eq!(App::new().find_by_name(&name("a")), None);
}

#[test]
fn find_by_id_gives_the_place_of_the_task() {
    let mut app = three_tasks();
    app.remove_at(0);
    assert_eq!(app.find_by_id(1), None);
    assert_eq!(app.find_by_id(2), Some(0));
    assert_eq!(app.find_by_id(3), Some(1));
    assert_eq!(app.find_by_id(0), None);
    assert_eq!(app.find_by_id(4), None);
}

#[test]
fn pause_moves_the_running_stretch_into_the_time_spent() {
    let mut app = three_tasks();
    assert_eq!(app.pause(2, 12 * SECOND), Toggled::Done);
    assert_eq!(app.tasks[1].status, TaskStatus::Paused);
    assert_eq!(app.tasks[1].time_spent, 10 * SECOND);
    assert_eq!(app.tasks[1].started_at, None);
    assert_eq!(app.tasks[0].status, TaskStatus::Active);
    assert_eq!(app.tasks[2].status, TaskStatus::Active);
    assert!(app.breaks.is_empty());

    assert_eq!(app.pause(2, 20 * SECOND), Toggled::AlreadySo);
    assert_eq!(app.tasks[1].time_spent, 10 * SECOND);
    assert_eq!(app.pause(9, 21 * SECOND), Toggled::NoSuchTask);
    assert_eq!(app.clock, 12 * SECOND);
}

#[test]
fn resume_starts_a_new_stretch() {
    let mut app = three_tasks();
    assert_eq!(app.resume(1, 4 * SECOND), Toggled::AlreadySo);
    assert_eq!(app.tasks[0].started_at, Some(SECOND));
    app.pause(1, 11 * SECOND);
    assert_eq!(app.resume(1, 30 * SECOND), Toggled::Done);
    assert_eq!(app.tasks[0].status, TaskStatus::Active);
    assert_eq!(app.tasks[0].started_at, Some(30 * SECOND));
    assert_eq!(app.tasks[0].time_spent, 10 * SECOND);
    assert_eq!(app.tasks[0].elapsed(45 * SECOND), 25 * SECOND);
    assert_eq!(app.resume(7, 31 * SECOND), Toggled::NoSuchTask);
}

#[test]
fn a_time_before_the_latest_one_seen_counts_as_the_latest() {
    let mut app = App::new();
    app.add(name("a"), 100 * SECOND);
    assert_eq!(app.tick(40 * SECOND), 100 * SECOND);
    assert_eq!(app.tick(140 * SECOND), 140 * SECOND);
    assert_eq!(app.pause(1, 50 * SECOND), Toggled::Done);
    assert_eq!(app.tasks[0].time_spent, 40 * SECOND);
    assert_eq!(app.resume(1, 0), Toggled::Done);
    assert_eq!(app.tasks[0].started_at, Some(140 * SECOND));
    assert_eq!(app.clock, 140 * SECOND);
}

#[test]
fn remove_at_keeps_the_selection_in_place_or_on_the_last_task() {
    let mut app = three_tasks();
    assert_eq!(app.selected_index, Some(2));
    assert_eq!(app.remove_at(0), Some(1));
    assert_eq!(app.selected_index, Some(0));
    assert_eq!(app.tasks.len(), 2);
    assert_eq!(app.tasks[0].name, "b");

    assert_eq!(app.remove_at(1), Some(3));
    assert_eq!(app.selected_index, Some(0));
    assert_eq!(app.remove_at(0), Some(2));
    assert_eq!(app.selected_index, None);
    assert!(app.tasks.is_empty());
}

#[test]
fn remove_at_in_the_middle_selects_the_task_that_moved_up() {
    let mut app = three_tasks();
    assert_eq!(app.remove_at(1), Some(2));
    assert_eq!(app.selected_index, Some(1));
    assert_eq!(app.tasks[1].name, "c");
}

#[test]
fn remove_at_ignores_a_place_past_the_end() {
    let mut app = three_tasks();
    assert_eq!(app.remove_at(3), None);
    assert_eq!(app.remove_at(usize::MAX), None);
    assert_eq!(app.tasks.len(), 3);
    assert_eq!(app.selected_index, Some(2));
    let mut empty = App::new();
    assert_eq!(empty.remove_at(0), None);
    assert_eq!(empty.selected_index, None);
}

#[test]
fn remove_at_takes_the_break_record_along() {
    let mut app = three_tasks();
    app.pause(1, 4 * SECOND);
    assert!(app.on_pause(1, 4 * SECOND));
    app.pause(3, 5 * SECOND);
    assert!(app.on_pause(3, 5 * SECOND));
    assert_eq!(app.remove_at(0), Some(1));
    assert_eq!(app.breaks.len(), 1);
    assert!(app.breaks.contains_key(&3));
    assert_eq!(app.remove_at(0), Some(2));
    assert_eq!(app.breaks.len(), 1);
    assert_eq!(app.remove_at(0), Some(3));
    assert!(app.breaks.is_empty());
}

#[test]
fn select_takes_a_place_in_the_list_or_none() {
    let mut app = three_tasks();
    assert!(app.select(Some(0)));
    assert_eq!(app.selected_index, Some(0));
    assert!(!app.select(Some(3)));
    assert_eq!(app.selected_index, Some(0));
    assert!(app.select(None));
    assert_eq!(app.selected_index, None);
    let mut empty = App::new();
    assert!(!empty.select(Some(0)));
    assert_eq!(empty.selected_index, None);
}

#[test]
fn the_selection_stops_at_either_end() {
    let mut app = three_tasks();
    app.move_selection(1);
    assert_eq!(app.selected_index, Some(2));
    app.move_selection(-1);
    assert_eq!(app.selected_index, Some(1));
    app.move_selection(-1);
    assert_eq!(app.selected_index, Some(0));
    app.move_selection(-1);
    assert_eq!(app.selected_index, Some(0));
    app.move_selection(2);
    assert_eq!(app.selected_index, Some(2));
    app.move_selection(i64::MAX);
    assert_eq!(app.selected_index, Some(2));
    app.move_selection(i64::MIN);
    assert_eq!(app.selected_index, Some(0));
    app.move_selection(0);
    assert_eq!(app.selected_index, Some(0));
    app.move_selection(-2);
    assert_eq!(app.selected_index, Some(0));
    app.move_selection(1);
    assert_eq!(app.selected_index, Some(1));
}

#[test]
fn a_move_with_nothing_selected_starts_before_the_first_task() {
    let mut app = three_tasks();
    app.select(None);
    app.move_selection(-1);
    assert_eq!(app.selected_index, None);
    app.move_selection(0);
    assert_eq!(app.selected_index, None);
    app.move_selection(1);
    assert_eq!(app.selected_index, Some(0));
    app.select(None);
    app.move_selection(2);
    assert_eq!(app.selected_index, Some(1));
    app.select(None);
    app.move_selection(40);
    assert_eq!(app.selected_index, Some(2));

    let mut empty = App::new();
    empty.move_selection(1);
    assert_eq!(empty.selected_index, None);
    empty.move_selection(-1);
    assert_eq!(empty.selected_index, None);
}

#[test]
fn the_selection_stays_in_bounds_whatever_is_done() {
    let mut app = App::new();
    let mut seed: u64 = 0x9E37_79B9_7F4A_7C15;
    for step in 0..2000u64 {
        seed = seed.wrapping_mul(6364136223846793005).wrapping_add(1442695040888963407);
        let pick = (seed >> 33) % 5;
        let amount = ((seed >> 40) % 7) as i64 - 3;
        match pick {
            0 => {
                app.add(format!("task {}", step % 9), step * SECOND);
            }
            1 => {
                app.remove_at(((seed >> 45) % 6) as usize);
            }
            2 => app.move_selection(amount),
            3 => {
                app.select(Some(((seed >> 45) % 6) as usize));
            }
            _ => {
                app.select(None);
            }
        }
        match app.selected_index {
            Some(i) => assert!(i < app.tasks.len()),
            None => {}
        }
    }
}
