//! What holds of every timer and of every dispatch, whatever the inputs.
//!
//! The laws are stated over the views and the transitions that the contracts
//! of [`crate::timer::Timer`] and [`crate::handle_action::handle_action`]
//! speak of, so each carries over to the executable code through those
//! contracts.

use crate::action::Action;
use crate::action::TimerId;
use crate::action::TimerOp;
use crate::handle_action::accepts;
use crate::handle_action::apply;
use crate::handle_action::apply_each;
use crate::handle_action::apply_op;
use crate::handle_action::before_quit;
use crate::handle_action::has_quit;
use crate::handle_action::signal;
use crate::timer::Phase;
use crate::timer::TimerView;
use vstd::prelude::*;

verus! {

/// An idle timer has nothing on its clock and an expired timer has exactly
/// its duration, at every instant.
pub proof fn law_elapsed_at_rest(timer: TimerView, now: u128)
    ensures
        timer.phase is Idle ==> timer.elapsed(now) == 0,
        timer.phase is Expired ==> timer.elapsed(now) == timer.duration,
{
}

/// The elapsed time lies between zero and the duration, and so the elapsed
/// fraction between zero and one, at every instant and in every phase, but
/// for a timer that is overdue at that instant or was paused late.
pub proof fn law_elapsed_within_duration(timer: TimerView, now: u128)
    requires
        !timer.is_overdue(now),
        timer.paused_in_time(),
    ensures
        0 <= timer.elapsed(now) <= timer.duration,
        timer.within_duration(now),
{
}

/// A timer that has just been ticked is not overdue, whatever it was before.
pub proof fn law_tick_settles(timer: TimerView, now: u128)
    ensures
        !timer.tick(now).is_overdue(now),
        timer.paused_in_time() ==> timer.tick(now).within_duration(now),
{
}

/// No transition makes a pause late: starting, resuming, stopping and ticking
/// keep `paused_in_time`, and so does pausing a timer at an instant at which
/// it is within its duration, as it is just after a tick.
pub proof fn law_paused_in_time_is_kept(timer: TimerView, now: u128)
    requires
        timer.paused_in_time(),
    ensures
        timer.start(now).paused_in_time(),
        timer.resume(now).paused_in_time(),
        timer.reset().paused_in_time(),
        timer.tick(now).paused_in_time(),
        timer.within_duration(now) ==> timer.pause(now).paused_in_time(),
        timer.tick(now).pause(now).paused_in_time(),
{
}

/// The table of transitions. Starting leads to running from the given
/// instant, and stopping to idle, from every phase. Pausing keeps what is on
/// the clock: nothing when idle, the duration when expired, and what a paused
/// timer had kept. Resuming leads to running with a start that lies as far
/// before the given instant as the clock has run: an idle timer starts, and a
/// timer that runs with a clock that has not gone backwards stays as it is.
pub proof fn law_transitions(timer: TimerView, now: u128)
    ensures
        timer.start(now).phase == (Phase::Running { start: now as int }),
        timer.reset().phase == Phase::Idle,
        timer.pause(now).phase == (Phase::Paused { elapsed: timer.elapsed(now) }),
        timer.phase is Idle ==> timer.pause(now).phase == (Phase::Paused { elapsed: 0 }),
        timer.phase is Paused ==> timer.pause(now) == timer,
        timer.phase is Expired ==> timer.pause(now).phase == (Phase::Paused {
            elapsed: timer.duration,
        }),
        timer.resume(now).phase == (Phase::Running { start: now - timer.elapsed(now) }),
        timer.phase is Idle ==> timer.resume(now) == timer.start(now),
        timer.phase matches Phase::Paused { elapsed } ==> timer.resume(now).phase == (
        Phase::Running { start: now - elapsed }),
        timer.phase is Expired ==> timer.resume(now).phase == (Phase::Running {
            start: now - timer.duration,
        }),
        timer.phase matches Phase::Running { start } && 0 <= now - start <= u128::MAX
            ==> timer.resume(now) == timer,
        timer.phase is Running && timer.elapsed(now) >= timer.duration ==> timer.tick(now).phase
            == Phase::Expired,
        !(timer.phase is Running && timer.elapsed(now) >= timer.duration) ==> timer.tick(now)
            == timer,
{
}

/// Resuming goes on where pausing left off: the clock reads just after
/// `resume(resumed_at)` what it read just before `pause(paused_at)`, however
/// far apart the two instants are, and whichever came first.
pub proof fn law_resume_continues(timer: TimerView, paused_at: u128, resumed_at: u128)
    ensures
        timer.pause(paused_at).resume(resumed_at).elapsed(resumed_at) == timer.elapsed(paused_at),
        timer.pause(paused_at).resume(resumed_at).phase is Running,
{
}

/// A paused timer stands still: its clock reads the same at every instant.
pub proof fn law_pause_holds(timer: TimerView, paused_at: u128, later: u128)
    ensures
        timer.pause(paused_at).elapsed(later) == timer.elapsed(paused_at),
{
}

/// Stopping returns a timer to idle from any phase, with nothing on its
/// clock, and changes neither label nor duration.
pub proof fn law_stop_returns_to_idle(timer: TimerView, now: u128)
    ensures
        timer.reset().phase == Phase::Idle,
        timer.reset().elapsed(now) == 0,
        timer.reset().label == timer.label,
        timer.reset().duration == timer.duration,
{
}

/// A tick expires a running timer once `now - start` has reached the
/// duration, and further ticks change nothing, at whatever instants they
/// come.
pub proof fn law_tick_expires_once(timer: TimerView, start: int, now: u128, later: u128)
    requires
        timer.phase == (Phase::Running { start }),
        now - start >= timer.duration,
    ensures
        timer.tick(now).phase == Phase::Expired,
        timer.tick(now).tick(later) == timer.tick(now),
{
}

/// For a running timer with a duration, a tick finds the duration used up
/// exactly when `now - start` has reached it.
pub proof fn law_due_when_duration_passed(timer: TimerView, start: int, now: u128)
    requires
        timer.phase == (Phase::Running { start }),
        timer.duration > 0,
    ensures
        timer.is_due(now) <==> now - start >= timer.duration,
{
}

/// A tick leaves a timer that is not running as it is.
pub proof fn law_tick_leaves_others(timer: TimerView, now: u128)
    requires
        !(timer.phase is Running),
    ensures
        timer.tick(now) == timer,
{
}

/// A tick leaves a running timer running, with the same start, while
/// `now - start` has not reached the duration.
pub proof fn law_tick_keeps_running(timer: TimerView, start: int, now: u128)
    requires
        timer.phase == (Phase::Running { start }),
        now - start < timer.duration,
        timer.duration > 0,
    ensures
        timer.tick(now) == timer,
{
}

/// No transition changes the label or the duration of a timer.
pub proof fn law_label_and_duration_stay(timer: TimerView, now: u128)
    ensures
        timer.start(now).label == timer.label && timer.start(now).duration == timer.duration,
        timer.resume(now).label == timer.label && timer.resume(now).duration == timer.duration,
        timer.pause(now).label == timer.label && timer.pause(now).duration == timer.duration,
        timer.reset().label == timer.label && timer.reset().duration == timer.duration,
        timer.tick(now).label == timer.label && timer.tick(now).duration == timer.duration,
{
}

/// Starting discards what had elapsed: just after `start(now)` the clock
/// reads zero, from any phase.
pub proof fn law_start_is_fresh(timer: TimerView, now: u128)
    ensures
        timer.start(now).phase == (Phase::Running { start: now as int }),
        timer.start(now).elapsed(now) == 0,
{
}

/// A command for one timer changes that timer alone, and the number of
/// timers stays.
pub proof fn law_command_touches_one_timer(
    timers: Seq<TimerView>,
    id: usize,
    op: TimerOp,
    now: u128,
    other: int,
)
    requires
        id < timers.len(),
        0 <= other < timers.len(),
        other != id,
    ensures
        apply(timers, Action::TimerAction { id: TimerId(id), op }, now).len() == timers.len(),
        apply(timers, Action::TimerAction { id: TimerId(id), op }, now)[other] == timers[other],
        apply(timers, Action::TimerAction { id: TimerId(id), op }, now)[id as int] == apply_op(
            timers[id as int],
            op,
            now,
        ),
{
}

/// Positions are stable: no action adds, removes or moves a timer, and the
/// timer at each position keeps its label and its duration.
pub proof fn law_positions_are_stable(
    timers: Seq<TimerView>,
    action: Action,
    now: u128,
    index: int,
)
    requires
        accepts(timers, action),
        0 <= index < timers.len(),
    ensures
        apply(timers, action, now).len() == timers.len(),
        apply(timers, action, now)[index].label == timers[index].label,
        apply(timers, action, now)[index].duration == timers[index].duration,
{
}

/// A tick reaches every timer, each with the same instant.
pub proof fn law_tick_reaches_all(timers: Seq<TimerView>, now: u128, index: int)
    requires
        0 <= index < timers.len(),
    ensures
        apply(timers, Action::Tick, now).len() == timers.len(),
        apply(timers, Action::Tick, now)[index] == timers[index].tick(now),
{
}

/// A run of actions keeps the number of timers, and leaves the timer at each
/// position its label and its duration.
pub proof fn law_run_keeps_positions(
    timers: Seq<TimerView>,
    actions: Seq<Action>,
    now: u128,
    index: int,
)
    requires
        forall|i: int| 0 <= i < actions.len() ==> accepts(timers, #[trigger] actions[i]),
        0 <= index < timers.len(),
    ensures
        apply_each(timers, actions, now).len() == timers.len(),
        apply_each(timers, actions, now)[index].label == timers[index].label,
        apply_each(timers, actions, now)[index].duration == timers[index].duration,
    decreases actions.len(),
{
    if actions.len() > 0 {
        let rest = actions.skip(1);
        assert forall|i: int| 0 <= i < rest.len() implies accepts(
            apply(timers, actions[0], now),
            #[trigger] rest[i],
        ) by {
            assert(rest[i] == actions[i + 1]);
        }
        law_run_keeps_positions(apply(timers, actions[0], now), rest, now, index);
    }
}

/// A run of actions leaves what its last action makes of what the actions
/// before it have left.
pub proof fn law_run_ends_with_last(timers: Seq<TimerView>, actions: Seq<Action>, now: u128)
    requires
        actions.len() > 0,
    ensures
        apply_each(timers, actions, now) == apply(
            apply_each(timers, actions.drop_last(), now),
            actions.last(),
            now,
        ),
    decreases actions.len(),
{
    let rest = actions.skip(1);
    if actions.len() == 1 {
        assert(apply_each(apply(timers, actions[0], now), rest, now) == apply(
            timers,
            actions[0],
            now,
        ));
    } else {
        law_run_ends_with_last(apply(timers, actions[0], now), rest, now);
        assert(rest.drop_last() =~= actions.drop_last().skip(1));
    }
}

/// Where no quit is among the actions, all of them are carried out.
pub proof fn law_without_quit_all_run(actions: Seq<Action>)
    requires
        !has_quit(actions),
    ensures
        before_quit(actions) == actions,
    decreases actions.len(),
{
    if actions.len() > 0 {
        let rest = actions.skip(1);
        assert(!(actions[0] is Quit));
        assert forall|i: int| 0 <= i < rest.len() implies !(#[trigger] rest[i] is Quit) by {
            assert(rest[i] == actions[i + 1]);
        }
        law_without_quit_all_run(rest);
        assert(seq![actions[0]] + rest =~= actions);
    } else {
        assert(actions =~= Seq::empty());
    }
}

/// Where a quit is among the actions, those before the first quit are
/// carried out and no others.
pub proof fn law_first_quit_ends_run(actions: Seq<Action>, first: int)
    requires
        0 <= first < actions.len(),
        actions[first] is Quit,
        forall|i: int| 0 <= i < first ==> !(#[trigger] actions[i] is Quit),
    ensures
        before_quit(actions) == actions.take(first),
    decreases first,
{
    if first == 0 {
        assert(actions.take(0) =~= Seq::empty());
    } else {
        let rest = actions.skip(1);
        assert(!(actions[0] is Quit));
        assert forall|i: int| 0 <= i < first - 1 implies !(#[trigger] rest[i] is Quit) by {
            assert(rest[i] == actions[i + 1]);
        }
        law_first_quit_ends_run(rest, first - 1);
        assert(seq![actions[0]] + rest.take(first - 1) =~= actions.take(first));
    }
}

/// A frame that ends with a tick leaves no timer overdue: whatever the
/// commands before the tick did, every timer that runs at the end of the
/// frame has less than its duration on the clock at the instant of the frame.
pub proof fn law_frame_leaves_none_overdue(
    timers: Seq<TimerView>,
    actions: Seq<Action>,
    now: u128,
    index: int,
)
    requires
        forall|i: int| 0 <= i < actions.len() ==> accepts(timers, #[trigger] actions[i]),
        actions.len() > 0,
        actions.last() is Tick,
        0 <= index < timers.len(),
    ensures
        apply_each(timers, actions, now).len() == timers.len(),
        !apply_each(timers, actions, now)[index].is_overdue(now),
        apply_each(timers, actions, now)[index].phase is Running ==> apply_each(
            timers,
            actions,
            now,
        )[index].elapsed(now) < timers[index].duration,
{
    let before = actions.drop_last();
    law_run_ends_with_last(timers, actions, now);
    law_run_keeps_positions(timers, before, now, index);
}

/// Only a quit tells the caller to leave, and a quit changes no timer.
pub proof fn law_only_quit_signals(timers: Seq<TimerView>, action: Action, now: u128)
    ensures
        action is Quit ==> signal(action) == Some(Action::Quit) && apply(timers, action, now)
            == timers,
        !(action is Quit) ==> signal(action) is None,
{
}

} // verus!
