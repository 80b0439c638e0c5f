//! The commands that the input layer hands to the core.
//!
//! An action holds all that is needed to carry it out. Actions are not
//! `Clone`: each is made once and consumed once.

use vstd::prelude::*;

verus! {

/// One command, made by the input layer and consumed by the dispatcher.
#[derive(PartialEq, Eq, Structural, Debug)]
pub enum Action {
    /// Apply `op` to the timer at position `id`.
    TimerAction { id: TimerId, op: TimerOp },
    /// Time has passed: let every timer notice it.
    Tick,
    /// Leave the program.
    Quit,
}

/// The position of a timer in the collection.
#[derive(PartialEq, Eq, Structural, Debug)]
pub struct TimerId(pub usize);

/// What a command does to one timer. It names no timer, so it is no action
/// by itself.
#[derive(PartialEq, Eq, Structural, Debug)]
pub enum TimerOp {
    Start,
    Pause,
    Resume,
    Stop,
}

} // verus!
