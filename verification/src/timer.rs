//! A single countdown timer.
//!
//! A timer never reads a clock. Every operation that depends on the time takes
//! the current instant as `now`, a count of nanoseconds since an origin that
//! the host picks once and keeps. Durations are counts of nanoseconds too.
//!
//! The contracts speak of a timer through its view, a [`TimerView`]: the
//! label, the duration and the [`Phase`]. The transitions are spec functions
//! on the view, and each method of [`Timer`] promises the transition of the
//! same name.

use vstd::prelude::*;

verus! {

/// The phase of a timer. Exactly one holds at any instant.
pub enum Phase {
    /// Reset, or never run: nothing has elapsed.
    Idle,
    /// Counting. `start` is the instant at which the elapsed time was zero;
    /// after a pause it lies before the instant of the resume, and may lie
    /// before the host's origin.
    Running { start: int },
    /// Halted with `elapsed` on the clock.
    Paused { elapsed: u128 },
    /// The whole duration has run out.
    Expired,
}

/// What a timer is to its callers.
pub struct TimerView {
    pub label: Seq<char>,
    pub duration: u128,
    pub phase: Phase,
}

/// The span from `start` to `now`: zero where the clock has gone backwards,
/// and no more than a `u128` can hold.
pub open spec fn span_between(start: int, now: u128) -> u128 {
    if now <= start {
        0
    } else if now - start >= u128::MAX {
        u128::MAX
    } else {
        (now - start) as u128
    }
}

impl TimerView {
    /// The time on the timer's clock at `now`.
    pub open spec fn elapsed(self, now: u128) -> u128 {
        match self.phase {
            Phase::Idle => 0,
            Phase::Running { start } => span_between(start, now),
            Phase::Paused { elapsed } => elapsed,
            Phase::Expired => self.duration,
        }
    }

    /// The same timer in another phase.
    pub open spec fn with_phase(self, phase: Phase) -> TimerView {
        TimerView { label: self.label, duration: self.duration, phase }
    }

    /// Start afresh at `now`, whatever had elapsed.
    pub open spec fn start(self, now: u128) -> TimerView {
        self.with_phase(Phase::Running { start: now as int })
    }

    /// Go on counting at `now` from what had elapsed.
    pub open spec fn resume(self, now: u128) -> TimerView {
        self.with_phase(Phase::Running { start: now - self.elapsed(now) })
    }

    /// Halt at `now`, keeping what has elapsed.
    pub open spec fn pause(self, now: u128) -> TimerView {
        self.with_phase(Phase::Paused { elapsed: self.elapsed(now) })
    }

    /// Back to idle.
    pub open spec fn reset(self) -> TimerView {
        self.with_phase(Phase::Idle)
    }

    /// Whether a tick at `now` finds a running timer with its duration used
    /// up.
    pub open spec fn is_due(self, now: u128) -> bool {
        self.phase is Running && self.elapsed(now) >= self.duration
    }

    /// Let the timer notice the time: a running timer whose duration is used
    /// up expires, every other timer stays as it is.
    pub open spec fn tick(self, now: u128) -> TimerView {
        if self.is_due(now) {
            self.with_phase(Phase::Expired)
        } else {
            self
        }
    }

    /// The phase without its data.
    pub open spec fn state(self) -> State {
        match self.phase {
            Phase::Idle => State::Reset,
            Phase::Running { .. } => State::Started,
            Phase::Paused { .. } => State::Paused,
            Phase::Expired => State::Stopped,
        }
    }

    /// No more than the whole duration is on the clock at `now`, so that the
    /// elapsed fraction is at most one.
    pub open spec fn within_duration(self, now: u128) -> bool {
        self.elapsed(now) <= self.duration
    }

    /// The timer is running at `now` with more than its duration on the
    /// clock: it should have expired, and no tick has told it.
    pub open spec fn is_overdue(self, now: u128) -> bool {
        self.phase is Running && self.elapsed(now) > self.duration
    }

    /// A pause has not kept more than the whole duration.
    pub open spec fn paused_in_time(self) -> bool {
        self.phase matches Phase::Paused { elapsed } ==> elapsed <= self.duration
    }
}

/// The phase of a timer as a tag, for display and for choosing commands.
#[derive(PartialEq, Eq, Structural, Debug)]
pub enum State {
    /// Idle: the timer is reset or has never been run, and the elapsed
    /// fraction is zero.
    Reset,
    /// Running.
    Started,
    /// Paused.
    Paused,
    /// Expired: the timer stopped by itself when its duration ran out, and
    /// the elapsed fraction is one.
    Stopped,
}

/// The elapsed share of a timer's duration as an exact ratio, left undivided:
/// the caller picks the number type and the rounding.
#[derive(PartialEq, Eq, Structural, Debug)]
pub struct Fraction {
    pub numer: u128,
    pub denom: u128,
}

enum InternalState {
    Reset,
    /// Counting since `since`, with `carried` already on the clock then. The
    /// start of the view is `since - carried`, which no unsigned count could
    /// hold once a timer is resumed sooner on the clock than it had run.
    Started { since: u128, carried: u128 },
    Paused { elapsed: u128 },
    Stopped,
}

/// A countdown timer: a label, a duration, and the phase it is in.
pub struct Timer {
    label: String,
    duration: u128,
    state: InternalState,
}

impl View for Timer {
    type V = TimerView;

    closed spec fn view(&self) -> TimerView {
        TimerView {
            label: self.label@,
            duration: self.duration,
            phase: match self.state {
                InternalState::Reset => Phase::Idle,
                InternalState::Started { since, carried } => Phase::Running {
                    start: since - carried,
                },
                InternalState::Paused { elapsed } => Phase::Paused { elapsed },
                InternalState::Stopped => Phase::Expired,
            },
        }
    }
}

impl Timer {
    /// An idle timer.
    pub fn new(label: String, duration: u128) -> (timer: Timer)
        ensures
            timer@ == (TimerView { label: label@, duration, phase: Phase::Idle }),
    {
        Timer { label, duration, state: InternalState::Reset }
    }

    /// The display name, as given at construction.
    pub fn label(&self) -> (label: &String)
        ensures
            label@ == self@.label,
    {
        &self.label
    }

    /// The whole span to count, as given at construction.
    pub fn duration(&self) -> (duration: u128)
        ensures
            duration == self@.duration,
    {
        self.duration
    }

    /// Starts afresh at `now`, from any phase.
    pub fn start(&mut self, now: u128)
        ensures
            final(self)@ == old(self)@.start(now),
            final(self)@.state() == State::Started,
            final(self)@.elapsed(now) == 0,
    {
        self.state = InternalState::Started { since: now, carried: 0 };
    }

    /// Goes on counting at `now` from what had elapsed, from any phase. The
    /// clock reads the same just after as it did just before, however long
    /// the timer stood. An idle timer has nothing elapsed, so resuming it is
    /// starting it.
    pub fn resume(&mut self, now: u128)
        ensures
            final(self)@ == old(self)@.resume(now),
            final(self)@.state() == State::Started,
            final(self)@.elapsed(now) == old(self)@.elapsed(now),
            old(self)@.phase is Idle ==> final(self)@ == old(self)@.start(now),
    {
        let carried: u128 = self.elapsed(now);
        self.state = InternalState::Started { since: now, carried };
    }

    /// Halts at `now`, keeping what has elapsed, from any phase. From then on
    /// the clock reads the same at every instant. Pausing a paused timer
    /// changes nothing.
    pub fn pause(&mut self, now: u128)
        ensures
            final(self)@ == old(self)@.pause(now),
            final(self)@.state() == State::Paused,
            forall|later: u128| #[trigger]
                final(self)@.elapsed(later) == old(self)@.elapsed(now),
            old(self)@.phase is Paused ==> final(self)@ == old(self)@,
            old(self)@.phase is Idle ==> final(self)@.elapsed(now) == 0,
            old(self)@.phase is Expired ==> final(self)@.elapsed(now) == old(self)@.duration,
    {
        let elapsed: u128 = self.elapsed(now);
        self.state = InternalState::Paused { elapsed };
    }

    /// Stops the timer: back to idle with nothing elapsed, from any phase.
    pub fn reset(&mut self)
        ensures
            final(self)@ == old(self)@.reset(),
            final(self)@.state() == State::Reset,
            forall|now: u128| #[trigger] final(self)@.elapsed(now) == 0,
    {
        self.state = InternalState::Reset;
    }

    /// Lets the timer notice the time. A running timer whose duration is
    /// used up at `now` expires; any other timer is left untouched.
    pub fn tick(&mut self, now: u128)
        ensures
            final(self)@ == old(self)@.tick(now),
            old(self)@.is_due(now) ==> final(self)@.phase == Phase::Expired,
            !old(self)@.is_due(now) ==> *final(self) == *old(self),
            old(self)@.phase matches Phase::Running { start } && now - start >= old(self)@.duration
                ==> final(self)@.phase == Phase::Expired,
            !(old(self)@.phase is Running) ==> *final(self) == *old(self),
            !final(self)@.is_overdue(now),
    {
        match self.state {
            InternalState::Started { .. } => {
                if self.elapsed(now) >= self.duration {
                    self.state = InternalState::Stopped;
                }
            },
            InternalState::Reset | InternalState::Paused { .. } | InternalState::Stopped => {},
        }
    }

    /// The phase, as a tag.
    pub fn state(&self) -> (state: State)
        ensures
            state == self@.state(),
    {
        match self.state {
            InternalState::Reset => State::Reset,
            InternalState::Started { .. } => State::Started,
            InternalState::Paused { .. } => State::Paused,
            InternalState::Stopped => State::Stopped,
        }
    }

    /// The time on the timer's clock at `now`: nothing when idle, the whole
    /// duration when expired, what was kept when paused, and the time since
    /// the start when running.
    pub fn elapsed(&self, now: u128) -> (elapsed: u128)
        ensures
            elapsed == self@.elapsed(now),
            self@.phase == Phase::Idle ==> elapsed == 0,
            self@.phase == Phase::Expired ==> elapsed == self@.duration,
    {
        match self.state {
            InternalState::Reset => 0,
            InternalState::Started { since, carried } => {
                if now >= since {
                    let run: u128 = now - since;
                    if run <= u128::MAX - carried {
                        carried + run
                    } else {
                        u128::MAX
                    }
                } else {
                    let lead: u128 = since - now;
                    if carried >= lead {
                        carried - lead
                    } else {
                        0
                    }
                }
            },
            InternalState::Paused { elapsed } => elapsed,
            InternalState::Stopped => self.duration,
        }
    }

    /// The elapsed share of the duration at `now`, as the ratio of
    /// `elapsed(now)` to `duration()`: zero when idle, one when expired. It
    /// is at most one unless the timer is overdue at `now`, or was paused
    /// with more than its duration on the clock.
    pub fn elapsed_frac(&self, now: u128) -> (frac: Fraction)
        ensures
            frac.numer == self@.elapsed(now),
            frac.denom == self@.duration,
            self@.phase is Idle ==> frac.numer == 0,
            self@.phase is Expired ==> frac.numer == frac.denom,
            !self@.is_overdue(now) && self@.paused_in_time() ==> frac.numer <= frac.denom,
    {
        Fraction { numer: self.elapsed(now), denom: self.duration }
    }
}

} // verus!
