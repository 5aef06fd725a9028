use vstd::prelude::*;

verus! {

/// The game's clock: the time of the current tick and the length of the
/// last one, in milliseconds since the session started.
#[derive(Clone, Copy, Debug, PartialEq, Eq, Structural)]
pub struct Clock {
    pub now: u64,
    pub dt: u32,
}

impl Clock {
    pub fn new() -> (r: Self)
        ensures
            r == (Clock { now: 0, dt: 0 }),
    {
        Clock { now: 0, dt: 0 }
    }

    /// Advances the clock by one tick of `dt` milliseconds; the time
    /// saturates at the largest `u64`.
    pub fn update(&mut self, dt: u32)
        ensures
            final(self).now == (if old(self).now + dt > u64::MAX {
                u64::MAX
            } else {
                (old(self).now + dt) as u64
            }),
            final(self).dt == dt,
    {
        self.now = self.now.saturating_add(dt as u64);
        self.dt = dt;
    }
}

/// Time elapsed between successive readings of a monotonic clock.
#[derive(Clone, Copy, Debug, PartialEq, Eq, Structural)]
pub struct DeltaTime {
    pub elapsed: u64,
    pub since: u64,
}

impl DeltaTime {
    /// Starts measuring at time zero.
    pub fn new() -> (r: Self)
        ensures
            r == (DeltaTime { elapsed: 0, since: 0 }),
    {
        Self { since: 0, elapsed: 0 }
    }

    /// Records the time elapsed since the last reading, `now` being the
    /// current reading.
    pub fn update(&mut self, now: u64)
        requires
            old(self).since <= now,
        ensures
            final(self).elapsed == now - old(self).since,
            final(self).since == now,
    {
        self.elapsed = now - self.since;
        self.since = now;
    }
}

/// Counts frames and reports the count about once a second.
#[derive(Clone, Copy, Debug, PartialEq, Eq, Structural)]
pub struct FpsCounter {
    pub since: u64,
    pub frames: u32,
}

impl FpsCounter {
    pub fn new() -> (r: Self)
        ensures
            r == (FpsCounter { since: 0, frames: 0 }),
    {
        Self { since: 0, frames: 0 }
    }

    /// Counts one frame shown at `now`. When more than a second has passed
    /// since the last report, returns the frames counted and starts over.
    pub fn tick(&mut self, now: u64) -> (r: Option<u32>)
        ensures
            ({
                let frames = if old(self).frames == u32::MAX {
                    u32::MAX
                } else {
                    (old(self).frames + 1) as u32
                };
                if old(self).since + 1000 < now {
                    r == Some(frames) && *final(self) == (FpsCounter { since: now, frames: 0 })
                } else {
                    r is None && *final(self) == (FpsCounter { since: old(self).since, frames })
                }
            }),
    {
        self.frames = self.frames.saturating_add(1);
        if self.since < now && now - self.since > 1000 {
            let result = self.frames;
            self.frames = 0;
            self.since = now;
            Some(result)
        } else {
            None
        }
    }
}

} // verus!
