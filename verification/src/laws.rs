//! What holds of the state machine as a whole, proved from the models of
//! its parts.

use crate::app::AppView;
use crate::clock::gap;
use crate::dispatch::{CommandView, Outcome};
use crate::keys::Key;
use crate::registry::{index_of_name, index_of_name_is_first};
use crate::task::{TaskStatus, TaskView};
use crate::tiers::{BreakStatus, BreakView, TierStatus, TierView};
use vstd::prelude::*;

verus! {

/// The state after a run of commands, each given with its time.
pub open spec fn replay(app: AppView, steps: Seq<(CommandView, nat)>) -> AppView
    decreases steps.len(),
{
    if steps.len() == 0 {
        app
    } else {
        replay(app, steps.drop_last()).dispatch(steps.last().0, steps.last().1)
    }
}

/// The state before the first command is well formed.
pub proof fn initial_state_is_wf()
    ensures
        AppView::initial().wf(),
{
}

/// Whatever commands are given to a well-formed state, at whatever times,
/// the state stays well formed.
pub proof fn replay_keeps_wf(app: AppView, steps: Seq<(CommandView, nat)>)
    requires
        app.wf(),
    ensures
        replay(app, steps).wf(),
    decreases steps.len(),
{
    if steps.len() > 0 {
        replay_keeps_wf(app, steps.drop_last());
        replay(app, steps.drop_last()).dispatch_keeps_wf(steps.last().0, steps.last().1);
    }
}

/// After every command of any run, each task is active exactly when it has
/// a start time.
pub proof fn active_iff_started(app: AppView, steps: Seq<(CommandView, nat)>, i: int)
    requires
        app.wf(),
        0 <= i < replay(app, steps).tasks.len(),
    ensures
        replay(app, steps).tasks[i].status == TaskStatus::Active <==> replay(
            app,
            steps,
        ).tasks[i].started_at is Some,
{
    replay_keeps_wf(app, steps);
}

/// After any run of commands, the selection is none or the place of a task.
pub proof fn selection_stays_in_bounds(app: AppView, steps: Seq<(CommandView, nat)>)
    requires
        app.wf(),
    ensures
        replay(app, steps).selected_index matches Some(i) ==> i < replay(app, steps).tasks.len(),
{
    replay_keeps_wf(app, steps);
}

/// After any run of commands, every break record belongs to a task: none
/// is left behind by a task that was removed.
pub proof fn no_break_without_task(app: AppView, steps: Seq<(CommandView, nat)>, id: u32)
    requires
        app.wf(),
        replay(app, steps).breaks.contains_key(id),
    ensures
        replay(app, steps).has_task(id),
{
    replay_keeps_wf(app, steps);
}

/// A command that is ignored leaves the state exactly as it was, and so
/// does the request to leave.
pub proof fn ignored_changes_nothing(app: AppView, command: CommandView, now: nat)
    requires
        app.outcome(command) == Outcome::Ignored || app.outcome(command) == Outcome::Quit,
    ensures
        app.dispatch(command, now) == app,
{
}

/// A command that is answered with a warning changes nothing but the
/// warning that the screen is to show.
pub proof fn warned_changes_only_the_warning(app: AppView, command: CommandView, now: nat)
    requires
        app.outcome(command) is Warned,
    ensures
        app.dispatch(command, now) == (AppView {
            warning: Some(app.outcome(command)->Warned_0),
            ..app
        }),
{
}

/// The time worked on a task never goes down as the clock goes on.
pub proof fn elapsed_is_monotonic(task: TaskView, earlier: nat, later: nat)
    requires
        earlier <= later,
    ensures
        task.elapsed(earlier) <= task.elapsed(later),
{
}

/// A pause freezes the time worked: whenever the paused task is looked at,
/// it shows what the task showed at the moment of the pause.
pub proof fn pause_freezes_elapsed(task: TaskView, at: nat, later: nat)
    requires
        task.wf(),
    ensures
        task.paused(at).elapsed(later) == task.elapsed(at),
{
}

/// A paused task that is resumed and then worked on for `delta` shows the
/// time it had before, and `delta` more.
pub proof fn resume_adds_wall_time(task: TaskView, at: nat, delta: nat)
    requires
        task.wf(),
        task.status == TaskStatus::Paused,
    ensures
        task.resumed(at).elapsed(at + delta) == task.time_spent + delta,
{
}

/// A pause that the dispatcher carries out freezes the time worked on the
/// task: whenever it is looked at afterwards, it shows what it showed at the
/// time of the pause.
pub proof fn dispatched_pause_freezes_elapsed(
    app: AppView,
    name: Seq<char>,
    now: nat,
    later: nat,
)
    requires
        app.wf(),
        app.outcome(CommandView::AddOrPause(name)) is Paused,
    ensures
        ({
            let i = index_of_name(app.tasks, name)->0 as int;
            let after = app.dispatch(CommandView::AddOrPause(name), now);
            after.tasks[i].elapsed(later) == app.tasks[i].elapsed(app.reading(now))
        }),
{
    index_of_name_is_first(app.tasks, name);
    app.id_finds_its_task(index_of_name(app.tasks, name)->0 as int);
}

/// A resume that the dispatcher carries out at `now` starts the task at
/// the time the state works with, which is `now` on a clock that has not
/// run backwards. It leaves the time spent and every break record as they
/// were, and lets the task show, `delta` later, the time it had before and
/// `delta` more.
pub proof fn dispatched_resume_adds_wall_time(
    app: AppView,
    name: Seq<char>,
    now: nat,
    delta: nat,
)
    requires
        app.wf(),
        app.outcome(CommandView::AddOrResume(name)) is Resumed,
    ensures
        ({
            let i = index_of_name(app.tasks, name)->0 as int;
            let after = app.dispatch(CommandView::AddOrResume(name), now);
            &&& after.tasks[i].status == TaskStatus::Active
            &&& after.tasks[i].started_at == Some(app.reading(now))
            &&& now >= app.clock ==> after.tasks[i].started_at == Some(now)
            &&& after.tasks[i].time_spent == app.tasks[i].time_spent
            &&& after.breaks == app.breaks
            &&& after.tasks[i].elapsed(app.reading(now) + delta) == app.tasks[i].time_spent + delta
        }),
{
    index_of_name_is_first(app.tasks, name);
    app.id_finds_its_task(index_of_name(app.tasks, name)->0 as int);
}

/// The same of the key that resumes: where the capital `R` finds a paused
/// task of the name in the text input, whatever state the key leaves has
/// that task at work from the time the state works with, its time spent
/// and every break record as they were, and `delta` later the task shows
/// the time it had before and `delta` more.
pub proof fn resume_key_adds_wall_time(app: AppView, now: nat, delta: nat, after: AppView)
    requires
        app.wf(),
        app.answer(Key::Char('R')) matches Some(outcome) && outcome is Resumed,
        app.handles(Key::Char('R'), now, after),
    ensures
        ({
            let i = index_of_name(app.tasks, app.text)->0 as int;
            &&& after.tasks[i].status == TaskStatus::Active
            &&& after.tasks[i].started_at == Some(app.reading(now))
            &&& now >= app.clock ==> after.tasks[i].started_at == Some(now)
            &&& after.tasks[i].time_spent == app.tasks[i].time_spent
            &&& after.breaks == app.breaks
            &&& after.tasks[i].elapsed(app.reading(now) + delta) == app.tasks[i].time_spent + delta
        }),
{
    dispatched_resume_adds_wall_time(app, app.text, now, delta);
}

/// Looking at the breaks, of one task or of all, leaves every task as it
/// was: the time worked is not touched by a screen that draws.
pub proof fn looking_leaves_the_tasks(app: AppView, task_id: u32, now: nat)
    ensures
        app.evaluate(task_id, now).tasks == app.tasks,
        app.refresh(now).tasks == app.tasks,
{
}

/// When the break of a paused task is looked at, each tier that has begun
/// shows the time from its start to the time the state works with, clamped
/// at the tier's length.
pub proof fn evaluated_tier_shows_clamped_time(app: AppView, task_id: u32, now: nat, k: int)
    requires
        app.wf(),
        app.breaks.contains_key(task_id),
        app.is_paused(task_id),
        1 <= k <= 3,
        app.evaluate(task_id, now).breaks[task_id].tier(k).started_at is Some,
    ensures
        ({
            let tier = app.evaluate(task_id, now).breaks[task_id].tier(k);
            let passed = gap(app.reading(now), tier.started_at->0);
            tier.elapsed == if passed >= BreakView::limit(k) {
                BreakView::limit(k)
            } else {
                passed
            }
        }),
{
    app.breaks[task_id].evaluate_clamps(app.clock, app.reading(now), k);
}

/// The same when all breaks are looked at: of every paused task that has a
/// break record, each tier that has begun shows the time from its start to
/// the time the state works with, clamped at the tier's length.
pub proof fn refreshed_tier_shows_clamped_time(app: AppView, task_id: u32, now: nat, k: int)
    requires
        app.wf(),
        app.breaks.contains_key(task_id),
        app.is_paused(task_id),
        1 <= k <= 3,
        app.refresh(now).breaks[task_id].tier(k).started_at is Some,
    ensures
        ({
            let tier = app.refresh(now).breaks[task_id].tier(k);
            let passed = gap(app.reading(now), tier.started_at->0);
            tier.elapsed == if passed >= BreakView::limit(k) {
                BreakView::limit(k)
            } else {
                passed
            }
        }),
{
    app.breaks[task_id].evaluate_clamps(app.clock, app.reading(now), k);
}

/// A tier has begun only if the tier before it has completed.
pub proof fn tiers_run_in_order(record: BreakView, k: int)
    requires
        record.wf(),
        1 <= k <= 2,
    ensures
        record.tier_status(k + 1) != TierStatus::Idle ==> record.tier_status(k)
            == TierStatus::Completed,
{
}

/// The same holds of what an evaluation reports, at whatever time it is
/// made.
pub proof fn evaluated_tiers_run_in_order(record: BreakView, now: nat, k: int)
    requires
        record.wf(),
        1 <= k <= 2,
    ensures
        record.evaluate(now).tier_status(k + 1) != TierStatus::Idle ==> record.evaluate(
            now,
        ).tier_status(k) == TierStatus::Completed,
{
    record.evaluate_keeps_wf(now);
}

/// A tier that begins during an evaluation begins at the instant at which
/// the tier before it completed, and that instant is not after the
/// evaluation.
pub proof fn next_tier_begins_at_completion(record: BreakView, now: nat, k: int)
    requires
        record.wf(),
        1 <= k <= 2,
        record.tier(k + 1).started_at is None,
        record.evaluate(now).tier(k + 1).started_at is Some,
    ensures
        record.evaluate(now).tier_status(k) == TierStatus::Completed,
        record.evaluate(now).tier(k + 1).started_at->0 == record.evaluate(now).tier(
            k,
        ).started_at->0 + BreakView::limit(k),
        record.evaluate(now).tier(k + 1).started_at->0 <= now,
{
}

/// Looking at the break of a task that is not paused changes nothing: no
/// tier begins while its task is at work.
pub proof fn break_rests_while_task_works(app: AppView, task_id: u32, now: nat)
    requires
        !app.is_paused(task_id),
    ensures
        app.evaluate(task_id, now) == app,
{
}

/// On a clock that has not run backwards since the tier was last looked at,
/// the tier's elapsed time is the time since it began, clamped at its
/// length.
pub proof fn advance_clamps(tier: TierView, limit: nat, now: nat)
    requires
        tier.wf(limit),
        tier.started_at is Some,
        now >= tier.started_at->0 + tier.elapsed,
    ensures
        tier.advance(limit, now).elapsed == if gap(now, tier.started_at->0) >= limit {
            limit
        } else {
            gap(now, tier.started_at->0)
        },
{
}

/// The elapsed time of a tier never exceeds the tier's length.
pub proof fn tier_elapsed_within_limit(record: BreakView, now: nat, k: int)
    requires
        record.wf(),
        1 <= k <= 3,
    ensures
        record.evaluate(now).tier(k).elapsed <= BreakView::limit(k),
{
    record.evaluate_keeps_wf(now);
}

/// A break is reported as exceeded exactly when all three tiers are
/// reported as completed.
pub proof fn exceeded_iff_all_completed(record: BreakView)
    ensures
        record.report().overall == BreakStatus::Exceeded <==> {
            &&& record.report().tier1 == TierStatus::Completed
            &&& record.report().tier2 == TierStatus::Completed
            &&& record.report().tier3 == TierStatus::Completed
        },
{
}

/// A whole break is never reported as completed: it is not begun, or
/// ongoing, or exceeded.
pub proof fn overall_is_never_completed(record: BreakView)
    ensures
        record.report().overall != BreakStatus::Completed,
{
}

} // verus!
