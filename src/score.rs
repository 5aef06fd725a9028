use vstd::prelude::*;

verus! {

/// The running score of a game session: one point per asteroid destroyed.
#[derive(Clone, Copy, Debug, PartialEq, Eq, Structural)]
pub struct Score(pub u32);

impl Score {
    pub fn new() -> (r: Self)
        ensures
            r.0 == 0,
    {
        Self(0)
    }

    pub fn value(&self) -> (r: u32)
        ensures
            r == self.0,
    {
        self.0
    }

    /// Adds `points`; the score saturates at the largest `u32`.
    pub fn add_points(&mut self, points: u32)
        ensures
            final(self).0 == (if old(self).0 + points > u32::MAX {
                u32::MAX
            } else {
                (old(self).0 + points) as u32
            }),
            final(self).0 >= old(self).0,
    {
        self.0 = self.0.saturating_add(points);
    }

    /// Whether this score beats `other`.
    pub fn beats(&self, other: &Score) -> (r: bool)
        ensures
            r == (self.0 > other.0),
    {
        self.0 > other.0
    }
}

} // verus!
