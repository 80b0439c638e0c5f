//! What the input layer makes of one frame.
//!
//! Each timer is drawn with two buttons: one that starts, pauses or resumes
//! it, depending on its state, and one that stops it. The host draws the
//! buttons and reports which were clicked; which command a click means is
//! decided here.

use crate::action::Action;
use crate::action::TimerId;
use crate::action::TimerOp;
use crate::handle_action::accepts;
use crate::handle_action::has_quit;
use crate::state;
use crate::timer::State;
use crate::timer::TimerView;
use vstd::prelude::*;

verus! {

/// The clicks on the two buttons of one timer in one frame.
#[derive(Clone, Copy, PartialEq, Eq, Structural, Debug)]
pub struct Clicks {
    /// The button that starts, pauses or resumes.
    pub toggle: bool,
    /// The button that stops.
    pub stop: bool,
}

/// The command of the first button for a timer in `state`: a timer that
/// stands still is started, a running one is paused, a paused one is resumed.
pub open spec fn spec_toggle_op(state: State) -> TimerOp {
    match state {
        State::Reset | State::Stopped => TimerOp::Start,
        State::Started => TimerOp::Pause,
        State::Paused => TimerOp::Resume,
    }
}

/// Whether the stop button is live for a timer in `state`: there is nothing
/// to stop on a timer that is reset.
pub open spec fn spec_can_stop(state: State) -> bool {
    state != State::Reset
}

/// The command that the first button of a timer in `state` gives, which is
/// also what the button should show.
#[verifier::when_used_as_spec(spec_toggle_op)]
pub fn toggle_op(state: State) -> (op: TimerOp)
    ensures
        op == spec_toggle_op(state),
{
    match state {
        State::Reset | State::Stopped => TimerOp::Start,
        State::Started => TimerOp::Pause,
        State::Paused => TimerOp::Resume,
    }
}

/// Whether the stop button of a timer in `state` is live.
#[verifier::when_used_as_spec(spec_can_stop)]
pub fn can_stop(state: State) -> (live: bool)
    ensures
        live == spec_can_stop(state),
{
    match state {
        State::Reset => false,
        _ => true,
    }
}

/// The clicks on timer `index`; no click where the host has not reported
/// any.
pub open spec fn clicks_at(clicks: Seq<Clicks>, index: int) -> Clicks {
    if 0 <= index < clicks.len() {
        clicks[index]
    } else {
        Clicks { toggle: false, stop: false }
    }
}

/// The commands from the buttons of timer `id`: at most one for each button,
/// the first button first. A click on a stop button that is not live counts
/// for nothing.
pub open spec fn timer_actions(id: usize, state: State, clicks: Clicks) -> Seq<Action> {
    let toggled = if clicks.toggle {
        seq![Action::TimerAction { id: TimerId(id), op: toggle_op(state) }]
    } else {
        Seq::empty()
    };
    let stopped = if clicks.stop && can_stop(state) {
        seq![Action::TimerAction { id: TimerId(id), op: TimerOp::Stop }]
    } else {
        Seq::empty()
    };
    toggled + stopped
}

/// The commands from the buttons of the first `count` timers, in the order
/// of the timers.
pub open spec fn button_actions(states: Seq<State>, clicks: Seq<Clicks>, count: nat) -> Seq<
    Action,
>
    decreases count,
{
    if count == 0 {
        Seq::empty()
    } else {
        let last = (count - 1) as nat;
        button_actions(states, clicks, last) + timer_actions(
            last as usize,
            states[last as int],
            clicks_at(clicks, last as int),
        )
    }
}

/// The actions of one frame. A request to close the window is a quit, and
/// nothing else is done in that frame. Otherwise the commands of the buttons
/// come first, and a tick ends every frame, clicked or not.
pub open spec fn spec_frame_actions(states: Seq<State>, clicks: Seq<Clicks>, close: bool) -> Seq<
    Action,
> {
    if close {
        seq![Action::Quit]
    } else {
        button_actions(states, clicks, states.len()) + seq![Action::Tick]
    }
}

/// The states of the timers, in their order.
pub open spec fn states_of(timers: Seq<TimerView>) -> Seq<State> {
    timers.map_values(|t: TimerView| t.state())
}

/// The actions of one frame, from the timers as they were drawn, the clicks
/// on their buttons (`clicks[i]` for timer `i`) and whether the window was
/// asked to close. Every command names a timer that is there, so the
/// dispatcher accepts each action, and only a request to close gives a quit.
pub fn frame_actions(timers: &state::State, clicks: &Vec<Clicks>, close: bool) -> (actions: Vec<
    Action,
>)
    ensures
        actions@ == spec_frame_actions(states_of(timers@), clicks@, close),
        forall|i: int| 0 <= i < actions.len() ==> accepts(timers@, #[trigger] actions[i]),
        has_quit(actions@) <==> close,
        !close ==> actions.len() > 0 && actions@.last() == Action::Tick,
{
    let mut actions: Vec<Action> = Vec::new();
    if close {
        actions.push(Action::Quit);
        assert(actions@[0] is Quit);
        return actions;
    }
    let n: usize = timers.timers.len();
    let mut i: usize = 0;
    while i < n
        invariant
            i <= n,
            n == timers.timers.len(),
            actions@ == button_actions(states_of(timers@), clicks@, i as nat),
            forall|k: int| 0 <= k < actions.len() ==> accepts(timers@, #[trigger] actions[k]),
            forall|k: int| 0 <= k < actions.len() ==> !(#[trigger] actions[k] is Quit),
        decreases n - i,
    {
        if i < clicks.len() {
            let clicked: Clicks = clicks[i];
            if clicked.toggle {
                let op = toggle_op(timers.timers[i].state());
                actions.push(Action::TimerAction { id: TimerId(i), op });
            }
            if clicked.stop && can_stop(timers.timers[i].state()) {
                actions.push(Action::TimerAction { id: TimerId(i), op: TimerOp::Stop });
            }
        }
        i += 1;
    }
    actions.push(Action::Tick);
    actions
}

} // verus!
