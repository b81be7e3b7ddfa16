use vstd::prelude::*;

use crate::points::{points_diff, Points};

verus! {

/// The points received and the points possible for one test.
#[derive(Debug, Clone, Copy, PartialEq, Eq, Structural)]
pub struct Score {
    received: Points,
    possible: Points,
}

/// The abstract value of a score: received and possible hundredths.
pub struct ScoreV {
    pub received: nat,
    pub possible: nat,
}

impl View for Score {
    type V = ScoreV;

    closed spec fn view(&self) -> ScoreV {
        ScoreV { received: self.received@, possible: self.possible@ }
    }
}

impl Score {
    pub closed spec fn wf(&self) -> bool {
        self.received.wf() && self.possible.wf()
    }

    /// A score of `received` out of `possible`.
    pub fn new(received: Points, possible: Points) -> (r: Self)
        ensures
            r@.received == received@,
            r@.possible == possible@,
            received.wf() && possible.wf() ==> r.wf(),
    {
        Self { received, possible }
    }

    /// A score of nothing out of nothing.
    pub fn empty() -> (r: Self)
        ensures
            r@.received == 0,
            r@.possible == 0,
            r.wf(),
    {
        let zero = Points::from_hundredths(0).unwrap();
        Self { received: zero, possible: zero }
    }

    /// No points received out of `max` possible.
    pub fn zero_points(max: Points) -> (r: Self)
        ensures
            r@.received == 0,
            r@.possible == max@,
            max.wf() ==> r.wf(),
    {
        Self { received: Points::from_hundredths(0).unwrap(), possible: max }
    }

    /// All of `max` received.
    pub fn full_points(max: Points) -> (r: Self)
        ensures
            r@.received == max@,
            r@.possible == max@,
            max.wf() ==> r.wf(),
    {
        Self { received: max, possible: max }
    }

    pub fn possible(&self) -> (r: Points)
        ensures
            r@ == self@.possible,
            self.wf() ==> r.wf(),
    {
        self.possible
    }

    pub fn received(&self) -> (r: Points)
        ensures
            r@ == self@.received,
            self.wf() ==> r.wf(),
    {
        self.received
    }

    /// The points missing from a full score.
    pub fn points_lost(&self) -> (r: Points)
        requires
            self@.received <= self@.possible,
        ensures
            r@ == points_diff(self@.possible, self@.received),
            self.wf() ==> r.wf(),
    {
        self.possible.sub(self.received)
    }

    /// Whether every possible point was received.
    pub fn received_full_points(&self) -> (r: bool)
        ensures
            r == (self@.received == self@.possible),
    {
        self.possible.hundredths() == self.received.hundredths()
    }

    /// The componentwise sum of two scores.
    pub fn add(self, rhs: Score) -> (r: Score)
        requires
            self@.received + rhs@.received <= u64::MAX,
            self@.possible + rhs@.possible <= u64::MAX,
        ensures
            r@.received == self@.received + rhs@.received,
            r@.possible == self@.possible + rhs@.possible,
            self.wf() && rhs.wf() ==> r.wf(),
    {
        Score { received: self.received.add(rhs.received), possible: self.possible.add(rhs.possible) }
    }

    /// Takes `points` away from the received part, stopping at zero; the
    /// possible part is unchanged.
    pub fn remove_points(self, points: Points) -> (r: Score)
        ensures
            r@.received == if points@ <= self@.received {
                points_diff(self@.received, points@)
            } else {
                0nat
            },
            r@.possible == self@.possible,
            self.wf() && points.wf() ==> r.wf(),
    {
        Score { received: self.received.saturating_sub(points), possible: self.possible }
    }
}

impl Default for Score {
    /// A score of nothing out of nothing.
    fn default() -> (r: Self)
        ensures
            r@.received == 0,
            r@.possible == 0,
            r.wf(),
    {
        Score::empty()
    }
}

} // verus!
