//! The core of a small countdown-timer tool: a set of timers that a user
//! starts, pauses, resumes and stops one by one, and the dispatcher that
//! applies the user's commands to them.
//!
//! The core draws nothing and reads no clock. The host polls its input once
//! per frame, turns it into [`action::Action`]s, hands them to [`Core`] with
//! the current instant, and reads the timers back to draw them.

use crate::action::Action;
use crate::handle_action::accepts;
use crate::handle_action::apply;
use crate::handle_action::apply_each;
use crate::handle_action::before_quit;
use crate::handle_action::has_quit;
use crate::handle_action::handle_action;
use crate::state::State;
use crate::timer::TimerView;
use vstd::prelude::*;

pub mod action;
pub mod conf;
pub mod frame;
pub mod handle_action;
pub mod laws;
pub mod state;
pub mod timer;

verus! {

/// The owner of the timers. All changes go through [`Core::handle`].
pub struct Core {
    state: State,
}

impl View for Core {
    type V = Seq<TimerView>;

    closed spec fn view(&self) -> Seq<TimerView> {
        self.state@
    }
}

impl Core {
    /// A core that owns `app_state`.
    pub fn new(app_state: State) -> (core: Core)
        ensures
            core@ == app_state@,
    {
        Core { state: app_state }
    }

    /// The timers, for reading.
    pub fn state(&self) -> (state: &State)
        ensures
            state@ == self@,
    {
        &self.state
    }

    /// Applies one action at `now`; see [`handle_action`].
    pub fn handle(&mut self, action: Action, now: u128) -> (signal: Option<Action>)
        requires
            accepts(old(self)@, action),
        ensures
            final(self)@ == apply(old(self)@, action, now),
            signal == crate::handle_action::signal(action),
            signal is Some <==> action is Quit,
    {
        handle_action(action, &mut self.state, now)
    }

    /// Applies the actions of one frame in order, all at `now`, and stops at
    /// the first quit, which it hands back. The actions after a quit are
    /// dropped.
    pub fn handle_all(&mut self, actions: Vec<Action>, now: u128) -> (signal: Option<Action>)
        requires
            forall|i: int| 0 <= i < actions.len() ==> accepts(old(self)@, #[trigger] actions[i]),
        ensures
            final(self)@ == apply_each(old(self)@, before_quit(actions@), now),
            has_quit(actions@) ==> signal == Some(Action::Quit),
            !has_quit(actions@) ==> signal is None,
    {
        let ghost all = actions@;
        assert(all.skip(0) =~= all);
        for action in it: actions
            invariant
                it.seq() == all,
                self@.len() == old(self)@.len(),
                forall|i: int| 0 <= i < all.len() ==> accepts(old(self)@, #[trigger] all[i]),
                forall|i: int| 0 <= i < it.index() ==> !(all[i] is Quit),
                apply_each(old(self)@, before_quit(all), now) == apply_each(
                    self@,
                    before_quit(all.skip(it.index() as int)),
                    now,
                ),
        {
            let ghost rest = all.skip(it.index() as int);
            assert(rest.skip(1) =~= all.skip(it.index() + 1));
            if let Some(quit) = self.handle(action, now) {
                return Some(quit);
            }
            assert(before_quit(rest).skip(1) =~= before_quit(rest.skip(1)));
        }
        None
    }
}

} // verus!
