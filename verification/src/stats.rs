//! The population store: the number of rectangles the scene is meant to hold.

use vstd::prelude::*;

verus! {

/// The target number of rectangles.
#[derive(Clone, Copy, Debug, PartialEq, Eq)]
pub struct Stats {
    pub count: u32,
}

/// The target a population of `count` grows to: twice as many, and never fewer than one.
pub open spec fn doubled(count: nat) -> nat {
    if 2 * count > 1 {
        2 * count
    } else {
        1
    }
}

/// The target a population of `count` shrinks to: half as many, rounded down.
pub open spec fn halved(count: nat) -> nat {
    count / 2
}

impl Default for Stats {
    /// A scene starts out with 250 rectangles.
    fn default() -> (stats: Self)
        ensures
            stats.count == 250,
    {
        Stats { count: 250 }
    }
}

impl Stats {
    /// Doubles the target; an empty population grows to one.
    pub fn double(&mut self)
        requires
            2 * old(self).count <= u32::MAX,
        ensures
            final(self).count == doubled(old(self).count as nat),
    {
        if self.count == 0 {
            self.count = 1;
        } else {
            self.count = self.count * 2;
        }
    }

    /// Halves the target, rounding down. Repeated halving ends at zero and stays there.
    pub fn halve(&mut self)
        ensures
            final(self).count == halved(old(self).count as nat),
    {
        self.count = self.count / 2;
    }
}

} // verus!
