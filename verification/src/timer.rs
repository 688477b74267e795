//! Frame timer. The caller samples a monotonic clock (milliseconds) and hands
//! each reading in; the timer keeps the span since the previous reading.

use vstd::prelude::*;

verus! {

/// Tracks elapsed milliseconds between clock readings.
pub struct Timer {
    running: bool,
    before: Option<u64>,
    elapsed_ms: i32,
}

impl Timer {
    /// Whether the timer has been started and not stopped.
    pub closed spec fn is_running(&self) -> bool {
        self.running
    }

    /// The clock reading the timer last saw, if any.
    pub closed spec fn last_reading(&self) -> Option<u64> {
        self.before
    }

    /// The span between the two most recent readings.
    pub closed spec fn elapsed(&self) -> i32 {
        self.elapsed_ms
    }

    pub fn new() -> (r: Self)
        ensures
            !r.is_running(),
            r.last_reading() is None,
            r.elapsed() == 0,
    {
        Timer { running: false, before: None, elapsed_ms: 0i32 }
    }

    /// Begins timing from the clock reading `now_ms`.
    pub fn start(&mut self, now_ms: u64)
        ensures
            final(self).is_running(),
            final(self).last_reading() == Some(now_ms),
            final(self).elapsed() == old(self).elapsed(),
    {
        self.running = true;
        self.before = Some(now_ms);
    }

    pub fn stop(&mut self)
        ensures
            !final(self).is_running(),
            final(self).last_reading() is None,
            final(self).elapsed() == old(self).elapsed(),
    {
        self.running = false;
        self.before = None;
    }

    pub fn get_elapsed_ms(&self) -> (r: i32)
        ensures
            r == self.elapsed(),
    {
        self.elapsed_ms
    }

    /// Takes a new clock reading: the elapsed span becomes the time since the
    /// previous reading, and `now_ms` becomes the reference for the next one.
    /// The clock is monotonic and a frame is far shorter than `i32::MAX`
    /// milliseconds, so both bounds are demanded rather than handled.
    pub fn update(&mut self, now_ms: u64)
        requires
            old(self).last_reading() is Some,
            old(self).last_reading()->0 <= now_ms,
            now_ms - old(self).last_reading()->0 <= i32::MAX,
        ensures
            final(self).is_running() == old(self).is_running(),
            final(self).elapsed() == now_ms - old(self).last_reading()->0,
            final(self).last_reading() == Some(now_ms),
    {
        let before = match self.before {
            Some(b) => b,
            None => 0,
        };
        self.elapsed_ms = (now_ms - before) as i32;
        self.before = Some(now_ms);
    }
}

} // verus!
