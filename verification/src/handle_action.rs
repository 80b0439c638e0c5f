//! The dispatcher: one action applied to the timers.

use crate::action::Action;
use crate::action::TimerId;
use crate::action::TimerOp;
use crate::state::State;
use crate::timer::TimerView;
use vstd::prelude::*;

verus! {

/// What `op` makes of a timer at `now`.
pub open spec fn apply_op(timer: TimerView, op: TimerOp, now: u128) -> TimerView {
    match op {
        TimerOp::Start => timer.start(now),
        TimerOp::Pause => timer.pause(now),
        TimerOp::Resume => timer.resume(now),
        TimerOp::Stop => timer.reset(),
    }
}

/// Whether `action` can be applied to `timers`: a command for one timer must
/// name a position that holds one.
pub open spec fn accepts(timers: Seq<TimerView>, action: Action) -> bool {
    action matches Action::TimerAction { id, .. } ==> id.0 < timers.len()
}

/// What `action` makes of the timers at `now`.
pub open spec fn apply(timers: Seq<TimerView>, action: Action, now: u128) -> Seq<TimerView> {
    match action {
        Action::TimerAction { id, op } => timers.update(
            id.0 as int,
            apply_op(timers[id.0 as int], op, now),
        ),
        Action::Tick => timers.map_values(|t: TimerView| t.tick(now)),
        Action::Quit => timers,
    }
}

/// What the caller is told after `action`: to leave, or nothing.
pub open spec fn signal(action: Action) -> Option<Action> {
    match action {
        Action::Quit => Some(Action::Quit),
        _ => None,
    }
}

/// The actions of `actions` that are carried out: those before the first
/// quit.
pub open spec fn before_quit(actions: Seq<Action>) -> Seq<Action>
    decreases actions.len(),
{
    if actions.len() == 0 || actions[0] is Quit {
        Seq::empty()
    } else {
        seq![actions[0]] + before_quit(actions.skip(1))
    }
}

/// What a run of actions makes of the timers at `now`, one after the other.
pub open spec fn apply_each(timers: Seq<TimerView>, actions: Seq<Action>, now: u128) -> Seq<
    TimerView,
>
    decreases actions.len(),
{
    if actions.len() == 0 {
        timers
    } else {
        apply_each(apply(timers, actions[0], now), actions.skip(1), now)
    }
}

/// Whether a quit is among `actions`.
pub open spec fn has_quit(actions: Seq<Action>) -> bool {
    exists|i: int| 0 <= i < actions.len() && actions[i] is Quit
}

/// Applies `action` to the timers at `now`.
///
/// A command for one timer touches that timer alone; a tick reaches every
/// timer, all with the same `now`; a quit changes nothing and is handed back
/// as the signal to leave.
pub fn handle_action(action: Action, state: &mut State, now: u128) -> (signal: Option<Action>)
    requires
        accepts(old(state)@, action),
    ensures
        final(state)@ == apply(old(state)@, action, now),
        signal == self::signal(action),
        signal is Some <==> action is Quit,
        final(state).timers.len() == old(state).timers.len(),
        action matches Action::TimerAction { id, op } ==> {
            &&& final(state).timers[id.0 as int]@ == apply_op(
                old(state).timers[id.0 as int]@,
                op,
                now,
            )
            &&& forall|i: int|
                0 <= i < old(state).timers.len() && i != id.0 ==> final(state).timers[i] == old(
                    state,
                ).timers[i]
        },
        action is Tick ==> forall|i: int|
            0 <= i < old(state).timers.len() ==> (#[trigger] final(state).timers[i])@ == old(
                state,
            ).timers[i]@.tick(now),
        action is Quit ==> *final(state) == *old(state),
{
    match action {
        Action::TimerAction { id: TimerId(idx), op } => {
            match op {
                TimerOp::Start => state.timers[idx].start(now),
                TimerOp::Pause => state.timers[idx].pause(now),
                TimerOp::Resume => state.timers[idx].resume(now),
                TimerOp::Stop => state.timers[idx].reset(),
            }
            None
        },
        Action::Tick => {
            let n: usize = state.timers.len();
            let mut i: usize = 0;
            while i < n
                invariant
                    i <= n,
                    state.timers.len() == n,
                    old(state).timers.len() == n,
                    forall|j: int| 0 <= j < i ==> state.timers[j]@ == old(state).timers[j]@.tick(now),
                    forall|j: int| i <= j < n ==> state.timers[j] == old(state).timers[j],
                decreases n - i,
            {
                state.timers[i].tick(now);
                i += 1;
            }
            None
        },
        Action::Quit => Some(action),
    }
}

} // verus!
