//! The values that stand in for what a configuration leaves out.

use crate::conf::Timer;
use vstd::prelude::*;

verus! {

pub fn title() -> (title: String)
    ensures
        title@ == "🍅 Tomato"@,
{
    "🍅 Tomato".to_owned()
}

pub fn window_width() -> (width: u32)
    ensures
        width == 320,
{
    320
}

pub fn bar_height() -> (height: u32)
    ensures
        height == 20,
{
    20
}

/// A long spell of work, a short break and a long break.
pub fn timers() -> (timers: Vec<Timer>)
    ensures
        timers@.len() == 3,
        timers@[0].label@ == "Work"@ && timers@[0].duration == 25,
        timers@[1].label@ == "Br"@ && timers@[1].duration == 5,
        timers@[2].label@ == "Break"@ && timers@[2].duration == 15,
{
    let mut timers: Vec<Timer> = Vec::new();
    timers.push(Timer { label: "Work".to_owned(), duration: 25 });
    timers.push(Timer { label: "Br".to_owned(), duration: 5 });
    timers.push(Timer { label: "Break".to_owned(), duration: 15 });
    timers
}

} // verus!
