//! The world clock: a growing age and the phase of the day.

use crate::text::{append_signed, signed_decimal};
use vstd::prelude::*;

verus! {

/// The ticks of one day.
pub const TICKS_PER_DAY: i64 = 24_000;

/// How often the world time is broadcast to every player, in ticks.
pub const TIME_BROADCAST_INTERVAL_TICKS: i64 = 20;

/// The world clock.
#[derive(Clone, Copy, Debug, PartialEq, Eq, Structural)]
pub struct WorldTime {
    /// The ticks since the world began; stays at the largest number.
    pub world_age: i64,
    /// The phase of the day, in `0..24000`.
    pub time_of_day: i64,
}

/// A clientbound time update.
#[derive(Clone, Copy, Debug, PartialEq, Eq, Structural)]
pub struct UpdateTime {
    /// The age of the world.
    pub world_age: i64,
    /// The phase of the day.
    pub time_of_day: i64,
    /// Whether the phase goes on by itself.
    pub increasing: bool,
}

impl WorldTime {
    /// Whether the phase lies within one day and the age is not negative.
    pub open spec fn wf(self) -> bool {
        &&& 0 <= self.time_of_day < TICKS_PER_DAY
        &&& 0 <= self.world_age
    }

    /// The update that tells this time.
    pub open spec fn update(self) -> UpdateTime {
        UpdateTime { world_age: self.world_age, time_of_day: self.time_of_day, increasing: true }
    }

    /// The clock one tick later.
    pub open spec fn next(self) -> WorldTime {
        WorldTime {
            world_age: if self.world_age == i64::MAX {
                i64::MAX
            } else {
                (self.world_age + 1) as i64
            },
            time_of_day: ((self.time_of_day + 1) % (TICKS_PER_DAY as int)) as i64,
        }
    }

    /// The beginning of the world.
    pub fn new() -> (r: WorldTime)
        ensures
            r.wf(),
            r == (WorldTime { world_age: 0, time_of_day: 0 }),
    {
        WorldTime { world_age: 0, time_of_day: 0 }
    }

    /// Advances the clock by one tick.
    pub fn advance(&mut self)
        requires
            old(self).wf(),
        ensures
            final(self).wf(),
            *final(self) == old(self).next(),
    {
        if self.world_age < i64::MAX {
            self.world_age = self.world_age + 1;
        }
        self.time_of_day = (self.time_of_day + 1) % TICKS_PER_DAY;
    }

    /// Sets the phase of the day, wrapped into one day; the age stays.
    pub fn set_time_of_day(&mut self, time: i64)
        requires
            old(self).wf(),
        ensures
            final(self).wf(),
            final(self).world_age == old(self).world_age,
            final(self).time_of_day as int == time as int % (TICKS_PER_DAY as int),
    {
        self.time_of_day = within_day(time as i128);
    }

    /// Moves the phase of the day, wrapped into one day; the age stays.
    pub fn add_time(&mut self, ticks: i64)
        requires
            old(self).wf(),
        ensures
            final(self).wf(),
            final(self).world_age == old(self).world_age,
            final(self).time_of_day as int == (old(self).time_of_day + ticks) % (
            TICKS_PER_DAY as int),
    {
        self.time_of_day = within_day(self.time_of_day as i128 + ticks as i128);
    }

    /// Whether this is a tick at which the time is broadcast.
    pub fn is_broadcast_tick(&self) -> (r: bool)
        requires
            self.wf(),
        ensures
            r == (self.world_age as int % (TIME_BROADCAST_INTERVAL_TICKS as int) == 0),
    {
        self.world_age % TIME_BROADCAST_INTERVAL_TICKS == 0
    }
}

fn within_day(ticks: i128) -> (r: i64)
    ensures
        r as int == ticks as int % (TICKS_PER_DAY as int),
        0 <= r < TICKS_PER_DAY,
{
    if ticks >= 0 {
        (ticks % 24_000) as i64
    } else {
        let back: i128 = (-(ticks + 1)) % 24_000;
        (23_999 - back) as i64
    }
}

/// Builds the clientbound time update.
pub fn update_time_packet(world_time: &WorldTime) -> (r: UpdateTime)
    ensures
        r == world_time.update(),
{
    UpdateTime {
        world_age: world_time.world_age,
        time_of_day: world_time.time_of_day,
        increasing: true,
    }
}

/// The answer to a question for the time.
pub fn time_message(time_of_day: i64) -> (r: String)
    ensures
        r@ == "The time is "@ + signed_decimal(time_of_day as int),
{
    let mut m = "The time is ".to_owned();
    append_signed(&mut m, time_of_day);
    m
}

/// The clock after some ticks.
pub open spec fn after_ticks(time: WorldTime, ticks: nat) -> WorldTime
    decreases ticks,
{
    if ticks == 0 {
        time
    } else {
        after_ticks(time, (ticks - 1) as nat).next()
    }
}

/// After any number of ticks the phase has moved on by as many, modulo one day, and
/// the age has grown by as many.
pub proof fn clock_counts_ticks(time: WorldTime, ticks: nat)
    requires
        time.wf(),
        time.world_age + ticks <= i64::MAX,
    ensures
        after_ticks(time, ticks).wf(),
        after_ticks(time, ticks).world_age == time.world_age + ticks,
        after_ticks(time, ticks).time_of_day as int == (time.time_of_day + ticks) % (
        TICKS_PER_DAY as int),
    decreases ticks,
{
    if ticks > 0 {
        clock_counts_ticks(time, (ticks - 1) as nat);
    }
}

/// An update tells the clock as it is, age as age and phase as phase, and that it goes on.
pub proof fn updates_tell_the_clock(time: WorldTime)
    ensures
        time.update().world_age == time.world_age,
        time.update().time_of_day == time.time_of_day,
        time.update().increasing,
{
}

} // verus!
