//! The clock that paces the actor: an interval, an accumulator and a pause
//! flag.  Time is counted in whole nanoseconds.

use vstd::prelude::*;

verus! {

/// Interval of a freshly started game: 150 ms.
pub const INITIAL_INTERVAL: u64 = 150_000_000;

/// The shortest interval the clock ever runs at: 1 ms.  Speeding up never
/// takes the interval below this floor, so it can never reach zero.
pub const MIN_INTERVAL: u64 = 1_000_000;

/// Every speed-up multiplies the interval by this many hundredths.
pub const SPEEDUP_PERCENT: u64 = 97;

/// The interval that follows `interval` after one speed-up: 97 % of it,
/// rounded down, but never less than the floor.
pub open spec fn shortened(interval: nat) -> nat {
    let scaled = interval * (SPEEDUP_PERCENT as nat) / 100;
    if scaled < MIN_INTERVAL {
        MIN_INTERVAL as nat
    } else {
        scaled
    }
}

/// Model of a [`GameClock`].
pub struct ClockState {
    /// Time between two ticks.
    pub interval: nat,
    /// Time gathered towards the next tick.
    pub elapsed: nat,
    /// Set once and for all by a fatal collision.
    pub paused: bool,
}

impl ClockState {
    /// The interval is at or above the floor.
    pub open spec fn wf(self) -> bool {
        self.interval >= MIN_INTERVAL
    }

    /// Whether feeding `delta` to the clock makes it fire.
    pub open spec fn fires(self, delta: nat) -> bool {
        !self.paused && self.elapsed + delta >= self.interval
    }

    /// The clock after `delta` has been fed to it.  A paused clock gathers
    /// nothing.  A running clock adds `delta` to what it has gathered and,
    /// when it fires, keeps only the remainder modulo the interval, so it
    /// fires at most once however large `delta` is.
    pub open spec fn ticked(self, delta: nat) -> ClockState {
        if self.paused {
            self
        } else {
            ClockState { elapsed: (self.elapsed + delta) % self.interval, ..self }
        }
    }

    /// The clock after one speed-up.
    pub open spec fn sped_up(self) -> ClockState {
        ClockState { interval: shortened(self.interval), ..self }
    }

    /// The clock once paused.
    pub open spec fn stopped(self) -> ClockState {
        ClockState { paused: true, ..self }
    }
}

/// A repeating timer with a mutable interval and a permanent pause.
#[derive(Clone, Copy, Debug)]
pub struct GameClock {
    interval: u64,
    elapsed: u64,
    paused: bool,
}

impl View for GameClock {
    type V = ClockState;

    closed spec fn view(&self) -> ClockState {
        ClockState {
            interval: self.interval as nat,
            elapsed: self.elapsed as nat,
            paused: self.paused,
        }
    }
}

impl GameClock {
    /// A running clock with nothing gathered yet.  An interval below the
    /// floor is refused.
    pub fn new(interval: u64) -> (clock: Option<GameClock>)
        ensures
            clock is Some <==> interval >= MIN_INTERVAL,
            clock matches Some(c) ==> c@ == (ClockState {
                interval: interval as nat,
                elapsed: 0,
                paused: false,
            }),
    {
        if interval >= MIN_INTERVAL {
            Some(GameClock { interval, elapsed: 0, paused: false })
        } else {
            None
        }
    }

    /// The clock a game starts with.
    pub fn initial() -> (clock: GameClock)
        ensures
            clock@ == (ClockState {
                interval: INITIAL_INTERVAL as nat,
                elapsed: 0,
                paused: false,
            }),
    {
        GameClock { interval: INITIAL_INTERVAL, elapsed: 0, paused: false }
    }

    /// Time between two ticks, in nanoseconds.
    pub fn interval(&self) -> (r: u64)
        ensures
            r == self@.interval,
    {
        self.interval
    }

    /// Time gathered towards the next tick, in nanoseconds.
    pub fn elapsed(&self) -> (r: u64)
        ensures
            r == self@.elapsed,
    {
        self.elapsed
    }

    /// Whether the clock has been paused.
    pub fn is_paused(&self) -> (r: bool)
        ensures
            r == self@.paused,
    {
        self.paused
    }

    /// Feeds `delta` nanoseconds to the clock and tells whether it fired.
    pub fn tick(&mut self, delta: u64) -> (fired: bool)
        requires
            old(self)@.wf(),
        ensures
            fired == old(self)@.fires(delta as nat),
            final(self)@ == old(self)@.ticked(delta as nat),
    {
        if self.paused {
            return false;
        }
        let gathered: u128 = self.elapsed as u128 + delta as u128;
        let fired: bool = gathered >= self.interval as u128;
        self.elapsed = (gathered % (self.interval as u128)) as u64;
        fired
    }

    /// Shortens the interval by the speed-up factor, down to the floor.
    pub fn speed_up(&mut self)
        ensures
            final(self)@ == old(self)@.sped_up(),
    {
        let scaled: u128 = self.interval as u128 * (SPEEDUP_PERCENT as u128) / 100;
        if scaled < MIN_INTERVAL as u128 {
            self.interval = MIN_INTERVAL;
        } else {
            self.interval = scaled as u64;
        }
    }

    /// Pauses the clock.  There is no way to resume it.
    pub fn pause(&mut self)
        ensures
            final(self)@ == old(self)@.stopped(),
    {
        self.paused = true;
    }
}

/// A speed-up never lengthens the interval, never takes it below the floor,
/// and strictly shortens every interval that is above the floor.
pub proof fn lemma_shortened_bounds(interval: nat)
    ensures
        shortened(interval) >= MIN_INTERVAL,
        interval >= MIN_INTERVAL ==> shortened(interval) <= interval,
        interval > MIN_INTERVAL ==> shortened(interval) < interval,
        interval == MIN_INTERVAL ==> shortened(interval) == interval,
{
}

} // verus!
