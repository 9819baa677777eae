//! Clocks: the machine's, and one that shows what it is told.

use crate::time::DAY;
use crate::time::on_the_clock;
use crate::time::ordinary;
use crate::time::SECS_LIMIT;
use crate::time::Stamp;
use vstd::prelude::*;

verus! {

/// Something that tells the time.
pub trait Clock {
    fn now(&self) -> Stamp;
}

/// The clock of the machine.
pub struct SystemClock;

impl Clock for SystemClock {
    fn now(&self) -> (r: Stamp)
        ensures
            on_the_clock(r.secs, r.nanos, r.offset),
    {
        Stamp::now()
    }
}

/// A clock that shows what it is told.
pub struct FakeClock {
    pub at: Stamp,
}

impl Clock for FakeClock {
    fn now(&self) -> (r: Stamp)
        ensures
            r == self.at,
    {
        self.at
    }
}

impl FakeClock {
    /// A clock that shows the moment.
    pub fn new(t: Stamp) -> (r: Self)
        ensures
            r.at == t,
    {
        FakeClock { at: t }
    }

    /// Sets the clock.
    pub fn set(&mut self, t: Stamp)
        ensures
            final(self).at == t,
    {
        self.at = t;
    }

    /// Moves the clock on by so many seconds; where the calendar has no such moment, it stays. A
    /// clock that stood as the machine's clock stands then as the machine's clock does: how far
    /// that is from UTC depends on the machine, and is not stated.
    pub fn advance(&mut self, secs: i64)
        ensures
            match old(self).at.later(secs) {
                Some(t) => {
                    &&& final(self).at == (Stamp { offset: final(self).at.offset, ..t })
                    &&& exists|then: Option<i32>, now: Option<i32>|
                        (now matches Some(o) ==> -DAY < o < DAY) && final(self).at.offset
                            == #[trigger] moved_offset(t.offset, then, now)
                },
                None => *final(self) == *old(self),
            },
            ordinary(old(self).at.secs, old(self).at.nanos) && -SECS_LIMIT <= old(self).at.secs
                + secs <= SECS_LIMIT ==> final(self).at == (Stamp {
                secs: (old(self).at.secs + secs) as i64,
                nanos: old(self).at.nanos,
                offset: final(self).at.offset,
            }),
    {
        if let Some(t) = self.at.plus_seconds(secs) {
            let then = self.at.machine_offset();
            let now = t.machine_offset();
            let offset = offset_after(t.offset, then, now);
            self.at = Stamp { secs: t.secs, nanos: t.nanos, offset };
        }
    }
}

/// How far a clock stands from UTC after it was moved: as the machine's clock does now, where it
/// stood as the machine's clock did then, else as before.
pub open spec fn moved_offset(offset: i32, then: Option<i32>, now: Option<i32>) -> i32 {
    match (then, now) {
        (Some(t), Some(n)) if t == offset => n,
        _ => offset,
    }
}

/// How far a clock stands from UTC after it was moved.
pub fn offset_after(offset: i32, then: Option<i32>, now: Option<i32>) -> (r: i32)
    ensures
        r == moved_offset(offset, then, now),
{
    match (then, now) {
        (Some(t), Some(n)) if t == offset => n,
        _ => offset,
    }
}

} // verus!
