use chronos::app::App;
use chronos::dispatch::Command;
use chronos::task::{Task, TaskStatus};
use chronos::tiers::{Break, BreakStatus};

const SECOND: u64 = 1_000_000_000;
const MINUTE: u64 = 60 * SECOND;

fn name(text: &str) -> String {
    String::from(text)
}

fn busy() -> App {
    let mut app = App::new();
    app.dispatch(Command::Add(name("a")), SECOND);
    app.dispatch(Command::AddOrPause(name("a")), 2 * SECOND);
    app.dispatch(Command::AddOrPause(name("b")), 3 * SECOND);
    app.dispatch(Command::Add(name("c")), 4 * SECOND);
    app.refresh(7 * MINUTE);
    app
}

#[test]
fn the_state_is_well_formed_after_every_command() {
    let mut app = App::new();
    assert!(app.is_wf());
    let mut seed: u64 = 0x2545_F491_4F6C_DD1D;
    let mut now: u64 = 0;
    for step in 0..3000u64 {
        seed = seed.wrapping_mul(6364136223846793005).wrapping_add(1442695040888963407);
        let pick = (seed >> 33) % 10;
        let which = (seed >> 40) % 6;
        now = if (seed >> 50) % 8 == 0 { now / 2 } else { now + (seed >> 52) * SECOND };
        match pick {
            0 => {
                app.dispatch(Command::Add(format!("task {}", which)), now);
            }
            1 | 2 => {
                app.dispatch(Command::AddOrPause(format!("task {}", which)), now);
            }
            3 | 4 => {
                app.dispatch(Command::AddOrResume(format!("task {}", which)), now);
            }
            5 => {
                app.dispatch(Command::Delete(which as usize), now);
            }
            6 => {
                app.dispatch(Command::MoveSelection(which as i64 - 3), now);
            }
            7 => {
                app.refresh(now);
            }
            8 => {
                app.evaluate(which as u32 + step as u32 / 100, now);
            }
            _ => {
                app.dispatch(Command::SwitchView, now);
                app.dispatch(Command::Escape, now);
                app.dispatch(Command::ToggleFocus, now);
            }
        }
        assert!(app.is_wf(), "after step {}", step);
        for task in &app.tasks {
            assert_eq!(task.status == TaskStatus::Active, task.started_at.is_some());
            assert!(task.elapsed(now) <= app.clock.max(now));
        }
    }
}

#[test]
fn a_task_is_well_formed_only_if_every_field_is() {
    let good = Task::new_active(1, name("a"), 5 * SECOND);
    assert!(good.is_wf());
    assert!(Task::new_paused(1, name("a")).is_wf());

    let mut task = good.clone();
    task.id = 0;
    assert!(!task.is_wf());

    let mut task = good.clone();
    task.name = name(" ");
    assert!(!task.is_wf());

    let mut task = good.clone();
    task.started_at = None;
    assert!(!task.is_wf());

    let mut task = good.clone();
    task.status = TaskStatus::Paused;
    assert!(!task.is_wf());

    let mut task = good.clone();
    task.time_spent = 5 * SECOND + 1;
    assert!(!task.is_wf());
    task.time_spent = 5 * SECOND;
    assert!(task.is_wf());

    let mut task = good.clone();
    task.expected_duration = 0;
    assert!(!task.is_wf());

    assert!(good.is_within(5 * SECOND));
    assert!(!good.is_within(5 * SECOND - 1));
    let mut paused = good.clone();
    paused.pause(9 * SECOND);
    assert!(paused.is_within(4 * SECOND));
    assert!(!paused.is_within(4 * SECOND - 1));
}

#[test]
fn a_break_record_is_well_formed_only_if_every_field_is() {
    let mut good = Break::new(SECOND);
    assert!(good.is_wf());
    good.evaluate(SECOND + 7 * MINUTE);
    assert!(good.is_wf());
    good.evaluate(SECOND + 70 * MINUTE);
    assert!(good.is_wf());

    let mut record = Break::new(SECOND);
    record.elapsed_time_1 = 5 * MINUTE + 1;
    assert!(!record.is_wf());

    let mut record = Break::new(SECOND);
    record.elapsed_time_2 = 1;
    assert!(!record.is_wf());

    let mut record = Break::new(SECOND);
    record.break_interval_1 = 5 * MINUTE;
    assert!(!record.is_wf());

    let mut record = Break::new(SECOND);
    record.break2_started_at = Some(SECOND + 5 * MINUTE);
    assert!(!record.is_wf());

    let mut record = Break::new(SECOND);
    record.break_status = BreakStatus::Started;
    assert!(!record.is_wf());

    let mut record = Break::new(SECOND);
    record.evaluate(SECOND + 7 * MINUTE);
    record.break2_started_at = Some(SECOND + 5 * MINUTE + 1);
    assert!(!record.is_wf());
    record.break2_started_at = None;
    assert!(!record.is_wf());
    record.break2_started_at = Some(4 * MINUTE);
    assert!(!record.is_wf());

    let mut record = Break::new(SECOND);
    record.evaluate(SECOND + 70 * MINUTE);
    record.break_status = BreakStatus::Ongoing;
    assert!(!record.is_wf());
    record.break_status = BreakStatus::Completed;
    assert!(!record.is_wf());
    record.break_status = BreakStatus::Exceeded;
    assert!(record.is_wf());
}

#[test]
fn the_state_is_well_formed_only_if_every_part_is() {
    assert!(busy().is_wf());

    let mut app = busy();
    app.next_id = 0;
    assert!(!app.is_wf());

    let mut app = busy();
    app.next_id = 3;
    assert!(!app.is_wf());

    let mut app = busy();
    app.selected_index = Some(3);
    assert!(!app.is_wf());
    app.selected_index = Some(0);
    assert!(app.is_wf());
    app.selected_index = None;
    assert!(app.is_wf());

    let mut app = busy();
    app.tasks.swap(0, 1);
    assert!(!app.is_wf());

    let mut app = busy();
    app.tasks[2].id = 2;
    assert!(!app.is_wf());

    let mut app = busy();
    app.tasks[0].started_at = Some(0);
    assert!(!app.is_wf());

    let mut app = busy();
    app.clock = 3 * SECOND;
    assert!(!app.is_wf());

    let mut app = busy();
    app.tasks.remove(1);
    assert!(!app.is_wf());

    let mut app = busy();
    app.breaks.insert(9, Break::new(0));
    assert!(!app.is_wf());

    let mut app = busy();
    app.breaks.get_mut(&1).unwrap().elapsed_time_3 = 1;
    assert!(!app.is_wf());

    let mut app = busy();
    app.breaks.clear();
    assert!(app.is_wf());

    let mut app = busy();
    let record = app.breaks.get_mut(&2).unwrap();
    record.evaluate(8 * MINUTE);
    assert!(record.is_wf());
    assert!(!app.is_wf());
    app.clock = 8 * MINUTE;
    assert!(app.is_wf());

    let mut app = busy();
    app.breaks.insert(3, Break::new(7 * MINUTE + 1));
    assert!(!app.is_wf());
    app.breaks.insert(3, Break::new(7 * MINUTE));
    assert!(app.is_wf());
}

#[test]
fn a_break_record_shows_nothing_past_the_time_it_was_looked_at() {
    let mut record = Break::new(10 * SECOND);
    assert!(record.is_within(10 * SECOND));
    assert!(!record.is_within(10 * SECOND - 1));
    assert!(record.is_within(u64::MAX));
    record.evaluate(10 * SECOND + 7 * MINUTE);
    assert!(record.is_within(10 * SECOND + 7 * MINUTE));
    assert!(!record.is_within(10 * SECOND + 7 * MINUTE - 1));
    record.evaluate(10 * SECOND + 70 * MINUTE);
    assert!(record.is_within(10 * SECOND + 25 * MINUTE));
    assert!(!record.is_within(10 * SECOND + 25 * MINUTE - 1));
}

#[test]
fn a_copy_of_a_task_is_the_task() {
    let mut task = Task::new_active(7, name("Write"), 5 * SECOND);
    task.pause(8 * SECOND);
    let copy = task.clone();
    assert_eq!(copy, task);
    assert_eq!(copy.id, 7);
    assert_eq!(copy.name, "Write");
    assert_eq!(copy.time_spent, 3 * SECOND);
}
