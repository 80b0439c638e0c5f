//! The timers of the application, in a fixed order.

use crate::action::Action;
use crate::conf::minutes_in_nanos;
use crate::conf::Conf;
use crate::conf::ConfError;
use crate::handle_action::accepts;
use crate::timer::Phase;
use crate::timer::Timer;
use crate::timer::TimerView;
use vstd::prelude::*;

verus! {

/// The timers, found by position. Actions name a timer by its position, so
/// timers are never removed or reordered.
pub struct State {
    /// The timers, in the order in which they are shown.
    pub timers: Vec<Timer>,
}

impl View for State {
    type V = Seq<TimerView>;

    open spec fn view(&self) -> Seq<TimerView> {
        self.timers@.map_values(|t: Timer| t@)
    }
}

/// The timer that a configured timer stands for: idle, with the same label
/// and the duration in nanoseconds.
pub open spec fn configured(timer: crate::conf::Timer) -> TimerView {
    TimerView {
        label: timer.label@,
        duration: minutes_in_nanos(timer.duration),
        phase: Phase::Idle,
    }
}

impl State {
    /// The timers of a configuration, all idle and in its order. A
    /// configuration with a timer of no duration is refused, and no timer is
    /// built.
    pub fn from_conf(conf: &Conf) -> (result: Result<State, ConfError>)
        ensures
            result is Ok <==> conf.is_valid(),
            result matches Ok(state) ==> {
                &&& state@ == conf.timers@.map_values(|t: crate::conf::Timer| configured(t))
                &&& state.timers.len() == conf.timers.len()
                &&& forall|i: int|
                    0 <= i < conf.timers.len() ==> (#[trigger] state.timers[i])@ == configured(
                        conf.timers[i],
                    )
            },
            result matches Err(ConfError::ZeroDuration { index }) ==> conf.first_invalid(
                index as int,
            ),
    {
        match conf.validate() {
            Err(e) => Err(e),
            Ok(()) => {
                let n: usize = conf.timers.len();
                let mut timers: Vec<Timer> = Vec::new();
                let mut i: usize = 0;
                while i < n
                    invariant
                        i <= n,
                        n == conf.timers.len(),
                        timers.len() == i,
                        forall|j: int| 0 <= j < i ==> (#[trigger] timers[j])@ == configured(conf.timers[j]),
                    decreases n - i,
                {
                    let label = conf.timers[i].label.clone();
                    timers.push(Timer::new(label, conf.timers[i].duration_nanos()));
                    i += 1;
                }
                Ok(State { timers })
            },
        }
    }

    /// Whether `action` can be handed to the dispatcher: a command for one
    /// timer must name a position that holds one.
    pub fn accepts(&self, action: &Action) -> (ok: bool)
        ensures
            ok == accepts(self@, *action),
    {
        match action {
            Action::TimerAction { id, .. } => id.0 < self.timers.len(),
            _ => true,
        }
    }
}

} // verus!
