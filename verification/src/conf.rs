//! The configuration: what the window looks like and which timers there are.
//!
//! A configuration is plain data. Whoever reads it from a document fills in
//! the values of [`default`] for what the document leaves out.

use vstd::prelude::*;

pub mod default;

verus! {

/// Durations are configured in minutes and counted in nanoseconds.
pub const SECONDS_PER_MINUTE: u128 = 60;

pub const NANOS_PER_SECOND: u128 = 1_000_000_000;

/// The whole configuration.
#[derive(Debug)]
pub struct Conf {
    /// The title of the window.
    pub title: String,
    /// The width of the window.
    pub window_width: u32,
    /// The height of the progress bar of each timer.
    pub bar_height: u32,
    /// The timers, in the order in which they are shown.
    pub timers: Vec<Timer>,
}

/// One timer as configured.
#[derive(Debug)]
pub struct Timer {
    /// The display name.
    pub label: String,
    /// Duration in minutes.
    pub duration: u32,
}

/// Why a configuration is refused.
#[derive(PartialEq, Eq, Structural, Debug)]
pub enum ConfError {
    /// The timer at position `index` has no duration.
    ZeroDuration { index: usize },
}

/// A number of minutes in nanoseconds.
pub open spec fn minutes_in_nanos(minutes: u32) -> u128 {
    (minutes * SECONDS_PER_MINUTE * NANOS_PER_SECOND) as u128
}

impl Timer {
    /// A timer can only be built from a duration that is not zero.
    pub open spec fn is_valid(&self) -> bool {
        self.duration > 0
    }

    /// The duration in nanoseconds.
    pub fn duration_nanos(&self) -> (nanos: u128)
        ensures
            nanos == minutes_in_nanos(self.duration),
    {
        self.duration as u128 * SECONDS_PER_MINUTE * NANOS_PER_SECOND
    }
}

impl Conf {
    /// Every timer has a duration.
    pub open spec fn is_valid(&self) -> bool {
        forall|i: int| 0 <= i < self.timers.len() ==> (#[trigger] self.timers[i]).is_valid()
    }

    /// Whether `index` is the position of the first timer without a
    /// duration.
    pub open spec fn first_invalid(&self, index: int) -> bool {
        &&& 0 <= index < self.timers.len()
        &&& !self.timers[index].is_valid()
        &&& forall|i: int| 0 <= i < index ==> (#[trigger] self.timers[i]).is_valid()
    }

    /// Accepts the configuration, or names the first timer that is at fault.
    pub fn validate(&self) -> (result: Result<(), ConfError>)
        ensures
            result is Ok <==> self.is_valid(),
            result matches Err(ConfError::ZeroDuration { index }) ==> self.first_invalid(
                index as int,
            ),
    {
        let n: usize = self.timers.len();
        let mut i: usize = 0;
        while i < n
            invariant
                i <= n,
                n == self.timers.len(),
                forall|j: int| 0 <= j < i ==> (#[trigger] self.timers[j]).is_valid(),
            decreases n - i,
        {
            if self.timers[i].duration == 0 {
                return Err(ConfError::ZeroDuration { index: i });
            }
            i += 1;
        }
        Ok(())
    }
}

} // verus!
