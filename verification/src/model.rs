//! The mathematical model that the contracts of this crate are stated over:
//! a stat triple as three natural numbers, the set of stats that are tied for
//! the highest value, and an evaluation as a claim about both.

use vstd::prelude::*;
use crate::ivs::{OverallAppraisal, StatRange};

verus! {

/// Largest value a single stat can take.
pub const MAX_STAT: u8 = 15;

/// One of the three stats of a creature.
pub enum Stat {
    Attack,
    Defense,
    Stamina,
}

/// The set of stats picked out by one flag per stat.
pub open spec fn stat_set(attack: bool, defense: bool, stamina: bool) -> Set<Stat> {
    Set::new(
        |stat: Stat|
            match stat {
                Stat::Attack => attack,
                Stat::Defense => defense,
                Stat::Stamina => stamina,
            },
    )
}

/// A stat triple as plain numbers, with no range imposed.
pub struct Stats {
    pub attack: nat,
    pub defense: nat,
    pub stamina: nat,
}

impl Stats {
    /// Every stat lies in `0..=MAX_STAT`.
    pub open spec fn valid(self) -> bool {
        &&& self.attack <= MAX_STAT
        &&& self.defense <= MAX_STAT
        &&& self.stamina <= MAX_STAT
    }

    /// The value of one stat.
    pub open spec fn get(self, stat: Stat) -> nat {
        match stat {
            Stat::Attack => self.attack,
            Stat::Defense => self.defense,
            Stat::Stamina => self.stamina,
        }
    }

    /// The sum of the three stats.
    pub open spec fn sum(self) -> nat {
        self.attack + self.defense + self.stamina
    }

    /// The largest of the three stats.
    pub open spec fn highest(self) -> nat {
        if self.attack >= self.defense && self.attack >= self.stamina {
            self.attack
        } else if self.defense >= self.stamina {
            self.defense
        } else {
            self.stamina
        }
    }

    /// `stat` reaches the highest value of the three.
    pub open spec fn is_top(self, stat: Stat) -> bool {
        self.get(stat) == self.highest()
    }

    /// The stats that reach the highest value; ties put several stats in the set.
    pub open spec fn top_stats(self) -> Set<Stat> {
        Set::new(|stat: Stat| self.is_top(stat))
    }

    /// `set` holds the stats that reach the highest value and no other,
    /// said stat by stat. It is the same as `set == self.top_stats()`.
    pub open spec fn tops_are(self, set: Set<Stat>) -> bool {
        &&& set.contains(Stat::Attack) == self.is_top(Stat::Attack)
        &&& set.contains(Stat::Defense) == self.is_top(Stat::Defense)
        &&& set.contains(Stat::Stamina) == self.is_top(Stat::Stamina)
    }

    /// The verdict on the sum: up to 22 is bad, up to 29 okay, up to 36 good,
    /// anything above great.
    pub open spec fn appraisal(self) -> OverallAppraisal {
        if self.sum() <= 22 {
            OverallAppraisal::Bad
        } else if self.sum() <= 29 {
            OverallAppraisal::Okay
        } else if self.sum() <= 36 {
            OverallAppraisal::Good
        } else {
            OverallAppraisal::Great
        }
    }

    /// The verdict on the highest stat: up to 7 is low, up to 12 average,
    /// up to 14 high, anything above perfect.
    pub open spec fn range(self) -> StatRange {
        if self.highest() <= 7 {
            StatRange::Low
        } else if self.highest() <= 12 {
            StatRange::Average
        } else if self.highest() <= 14 {
            StatRange::High
        } else {
            StatRange::Perfect
        }
    }

    /// All three stats have the largest value a stat can take.
    pub open spec fn perfect(self) -> bool {
        &&& self.attack == MAX_STAT
        &&& self.defense == MAX_STAT
        &&& self.stamina == MAX_STAT
    }

    /// No stat of `self` is above the same stat of `other`.
    pub open spec fn all_le(self, other: Stats) -> bool {
        &&& self.attack <= other.attack
        &&& self.defense <= other.defense
        &&& self.stamina <= other.stamina
    }
}

/// What one evaluation claims of a creature: the verdict on the sum of its
/// stats, the verdict on its highest stat, and which stats are tied for highest.
pub struct Evaluation {
    pub overall: OverallAppraisal,
    pub stat_range: StatRange,
    pub top_stats: Set<Stat>,
}

impl Evaluation {
    /// The claim is true of `stats` in all three parts.
    pub open spec fn admits(self, stats: Stats) -> bool {
        &&& stats.appraisal() == self.overall
        &&& stats.range() == self.stat_range
        &&& stats.tops_are(self.top_stats)
    }
}

/// The test stat by stat and the equality of sets say the same.
pub proof fn lemma_tops_are(stats: Stats, set: Set<Stat>)
    ensures
        stats.tops_are(set) <==> set == stats.top_stats(),
{
    if stats.tops_are(set) {
        assert(set =~= stats.top_stats());
    }
}

} // verus!
