use vstd::prelude::*;

verus! {

/// How the latest score compares with the one before it.
#[derive(Clone, Copy, Debug, PartialEq, Eq, Structural)]
pub enum Score {
    High { score: u16 },
    Normal { score: u16, high: u16 },
}

/// The latest score and the score before it.
#[derive(Clone, Copy, Debug, PartialEq, Eq, Structural)]
pub struct Scores {
    pub previous: Option<u16>,
    pub current: Score,
}

/// The score that a `Score` records last.
pub open spec fn latest(s: Score) -> u16 {
    match s {
        Score::High { score } => score,
        Score::Normal { score, .. } => score,
    }
}

/// The record after a new score: a high score when it beats the score before
/// it, otherwise a normal score beside that one.
pub open spec fn recorded(current: Score, score: u16) -> Score {
    if score > latest(current) {
        Score::High { score }
    } else {
        Score::Normal { score, high: latest(current) }
    }
}

impl Scores {
    /// No score yet: zero counts as a high score.
    pub fn init() -> (r: Scores)
        ensures
            r == (Scores { previous: None, current: Score::High { score: 0 } }),
    {
        Scores { previous: None, current: Score::High { score: 0 } }
    }

    /// Records a new score against the one before it.
    pub fn new_score(&mut self, score: u16) -> (r: &mut Self)
        ensures
            *r == (Scores {
                previous: Some(latest(old(self).current)),
                current: recorded(old(self).current, score),
            }),
            *final(self) == *final(r),
    {
        let previous = match self.current {
            Score::High { score } => score,
            Score::Normal { score, .. } => score,
        };
        self.previous = Some(previous);
        self.current = if score > previous {
            Score::High { score }
        } else {
            Score::Normal { score, high: previous }
        };
        self
    }

    pub fn score(&self) -> (r: Score)
        ensures
            r == self.current,
    {
        self.current
    }
}

} // verus!
