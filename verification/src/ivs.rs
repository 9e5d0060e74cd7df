//! Validated stat triples, the classifications derived from them, and the
//! test of a triple against a recorded evaluation.
//!
//! Every type here has a view in [`crate::model`], and every function says in
//! its contract what it returns in terms of that view. A function `f` that
//! returns a value comes with a spec function `spec_f`, which is what `f`
//! means where it is written in a contract or a proof.

use vstd::prelude::*;
use crate::model::{lemma_tops_are, stat_set, Evaluation, Stat, Stats, MAX_STAT};

verus! {

/// The game's verdict on the sum of the three stats.
#[derive(Clone, Copy, PartialEq, Eq, Debug, Hash, Structural)]
pub enum OverallAppraisal {
    Bad,
    Okay,
    Good,
    Great,
}

impl OverallAppraisal {
    /// The place of the verdict in the order from bad, the lowest, to great.
    pub open spec fn rank(self) -> nat {
        match self {
            OverallAppraisal::Bad => 0,
            OverallAppraisal::Okay => 1,
            OverallAppraisal::Good => 2,
            OverallAppraisal::Great => 3,
        }
    }

    /// The lower bound that the verdict carries, stat by stat: 7 for great,
    /// 1 for good, 0 for bad and okay. It is a fixed figure of the verdict and
    /// is not derived from the sums that the verdict stands for.
    pub open spec fn min_bound(self) -> Stats {
        match self {
            OverallAppraisal::Great => Stats { attack: 7, defense: 7, stamina: 7 },
            OverallAppraisal::Good => Stats { attack: 1, defense: 1, stamina: 1 },
            _ => Stats { attack: 0, defense: 0, stamina: 0 },
        }
    }

    /// `min_stats` as a spec function.
    pub open spec fn spec_min_stats(self) -> IndividualValue {
        IndividualValue::of_stats(self.min_bound())
    }

    /// The triple that holds the verdict's lower bound in each stat.
    #[verifier::when_used_as_spec(spec_min_stats)]
    pub fn min_stats(self) -> (r: IndividualValue)
        ensures
            r == self.spec_min_stats(),
            r@ == self.min_bound(),
    {
        match self {
            OverallAppraisal::Great => IndividualValue::new(7, 7, 7).unwrap(),
            OverallAppraisal::Good => IndividualValue::new(1, 1, 1).unwrap(),
            _ => IndividualValue::new(0, 0, 0).unwrap(),
        }
    }
}

/// The game's verdict on the highest of the three stats.
#[derive(Clone, Copy, PartialEq, Eq, Debug, Hash, Structural)]
pub enum StatRange {
    Low,
    Average,
    High,
    Perfect,
}

impl StatRange {
    /// The place of the verdict in the order from low to perfect.
    pub open spec fn rank(self) -> nat {
        match self {
            StatRange::Low => 0,
            StatRange::Average => 1,
            StatRange::High => 2,
            StatRange::Perfect => 3,
        }
    }

    /// The upper bound that the verdict carries, stat by stat: 7 for low,
    /// 12 for average, 14 for high, 15 for perfect.
    pub open spec fn max_bound(self) -> Stats {
        match self {
            StatRange::Low => Stats { attack: 7, defense: 7, stamina: 7 },
            StatRange::Average => Stats { attack: 12, defense: 12, stamina: 12 },
            StatRange::High => Stats { attack: 14, defense: 14, stamina: 14 },
            StatRange::Perfect => Stats { attack: 15, defense: 15, stamina: 15 },
        }
    }

    /// `max_stats` as a spec function.
    pub open spec fn spec_max_stats(self) -> IndividualValue {
        IndividualValue::of_stats(self.max_bound())
    }

    /// The triple that holds the verdict's upper bound in each stat.
    #[verifier::when_used_as_spec(spec_max_stats)]
    pub fn max_stats(self) -> (r: IndividualValue)
        ensures
            r == self.spec_max_stats(),
            r@ == self.max_bound(),
    {
        match self {
            StatRange::Low => IndividualValue::new(7, 7, 7).unwrap(),
            StatRange::Average => IndividualValue::new(12, 12, 12).unwrap(),
            StatRange::High => IndividualValue::new(14, 14, 14).unwrap(),
            StatRange::Perfect => IndividualValue::new(15, 15, 15).unwrap(),
        }
    }
}

/// Which stats are tied for the highest value: one flag per stat, and never
/// all three flags down.
#[derive(Clone, Copy, PartialEq, Eq, Debug, Hash, Structural)]
pub struct TopStat {
    attack: bool,
    defense: bool,
    stamina: bool,
}

impl View for TopStat {
    type V = Set<Stat>;

    /// The stats whose flag is up.
    closed spec fn view(&self) -> Set<Stat> {
        stat_set(self.attack, self.defense, self.stamina)
    }
}

impl TopStat {
    /// At least one stat is flagged. This holds of every value that
    /// executable code can get hold of.
    #[verifier::type_invariant]
    pub open spec fn wf(&self) -> bool {
        self.attack_hi() || self.defense_hi() || self.stamina_hi()
    }

    /// The value whose view is `stats`.
    pub closed spec fn of_set(stats: Set<Stat>) -> TopStat {
        TopStat {
            attack: stats.contains(Stat::Attack),
            defense: stats.contains(Stat::Defense),
            stamina: stats.contains(Stat::Stamina),
        }
    }

    /// `of_set` undoes the view.
    pub proof fn lemma_of_set(stats: Set<Stat>)
        ensures
            Self::of_set(stats)@ == stats,
    {
        assert(Self::of_set(stats)@ =~= stats);
    }

    /// Two values with the same view are the same value.
    pub proof fn lemma_view_injective(self, other: TopStat)
        requires
            self@ == other@,
        ensures
            self == other,
    {
        assert(self.attack == self@.contains(Stat::Attack) && other.attack == other@.contains(
            Stat::Attack,
        ));
        assert(self.defense == self@.contains(Stat::Defense) && other.defense == other@.contains(
            Stat::Defense,
        ));
        assert(self.stamina == self@.contains(Stat::Stamina) && other.stamina == other@.contains(
            Stat::Stamina,
        ));
    }

    /// `new` as a spec function.
    pub open spec fn spec_new(attack: bool, defense: bool, stamina: bool) -> Option<TopStat> {
        if attack || defense || stamina {
            Some(Self::of_set(stat_set(attack, defense, stamina)))
        } else {
            None
        }
    }

    /// Builds the value from one flag per stat, or gives `None` when no flag
    /// is up.
    #[verifier::when_used_as_spec(spec_new)]
    pub fn new(attack: bool, defense: bool, stamina: bool) -> (r: Option<TopStat>)
        ensures
            r == Self::spec_new(attack, defense, stamina),
            r is Some <==> attack || defense || stamina,
            r matches Some(top) ==> top@ == stat_set(attack, defense, stamina),
    {
        if !(attack || defense || stamina) {
            return None;
        }
        Some(TopStat { attack, defense, stamina })
    }

    /// `attack_hi` as a spec function.
    pub open spec fn spec_attack_hi(&self) -> bool {
        self@.contains(Stat::Attack)
    }

    /// Whether attack is among the flagged stats.
    #[verifier::when_used_as_spec(spec_attack_hi)]
    pub fn attack_hi(&self) -> (r: bool)
        ensures
            r == self@.contains(Stat::Attack),
    {
        self.attack
    }

    /// `defense_hi` as a spec function.
    pub open spec fn spec_defense_hi(&self) -> bool {
        self@.contains(Stat::Defense)
    }

    /// Whether defense is among the flagged stats.
    #[verifier::when_used_as_spec(spec_defense_hi)]
    pub fn defense_hi(&self) -> (r: bool)
        ensures
            r == self@.contains(Stat::Defense),
    {
        self.defense
    }

    /// `stamina_hi` as a spec function.
    pub open spec fn spec_stamina_hi(&self) -> bool {
        self@.contains(Stat::Stamina)
    }

    /// Whether stamina is among the flagged stats.
    #[verifier::when_used_as_spec(spec_stamina_hi)]
    pub fn stamina_hi(&self) -> (r: bool)
        ensures
            r == self@.contains(Stat::Stamina),
    {
        self.stamina
    }

    /// `matches` as a spec function.
    pub open spec fn spec_matches(&self, value: &IndividualValue) -> bool {
        value@.tops_are(self@)
    }

    /// Whether the flagged stats are exactly the stats of `value` that are
    /// tied for highest: a stat is flagged if and only if it reaches the
    /// highest value. Flagging only some of the tied stats is no match.
    #[verifier::when_used_as_spec(spec_matches)]
    pub fn matches(&self, value: &IndividualValue) -> (r: bool)
        ensures
            r == value@.tops_are(self@),
            r == (self@ =~= value@.top_stats()),
    {
        proof {
            lemma_tops_are(value@, self@);
        }
        let max_stat: u8 = value.highest_stat_value();
        self.attack == (value.attack() == max_stat) && self.defense == (value.defense()
            == max_stat) && self.stamina == (value.stamina() == max_stat)
    }
}

/// One recorded evaluation of a creature: the verdict on the sum of its
/// stats, the verdict on its highest stat, and the stats tied for highest.
#[derive(Clone, Copy, PartialEq, Eq, Debug, Hash, Structural)]
pub struct PokeEvaluation {
    overall: OverallAppraisal,
    stat_range: StatRange,
    top_stat: TopStat,
}

impl View for PokeEvaluation {
    type V = Evaluation;

    closed spec fn view(&self) -> Evaluation {
        Evaluation {
            overall: self.overall,
            stat_range: self.stat_range,
            top_stats: self.top_stat@,
        }
    }
}

impl PokeEvaluation {
    /// `new` as a spec function.
    pub closed spec fn spec_new(
        overall: OverallAppraisal,
        stat_range: StatRange,
        top_stat: TopStat,
    ) -> PokeEvaluation {
        PokeEvaluation { overall, stat_range, top_stat }
    }

    /// The view of a new evaluation holds the three parts it was made of.
    pub proof fn lemma_new(overall: OverallAppraisal, stat_range: StatRange, top_stat: TopStat)
        ensures
            Self::new(overall, stat_range, top_stat)@ == (Evaluation {
                overall,
                stat_range,
                top_stats: top_stat@,
            }),
    {
    }

    /// Two values with the same view are the same value.
    pub proof fn lemma_view_injective(self, other: PokeEvaluation)
        requires
            self@ == other@,
        ensures
            self == other,
    {
        self.top_stat.lemma_view_injective(other.top_stat);
    }

    /// Puts the three parts of an evaluation together.
    #[verifier::when_used_as_spec(spec_new)]
    pub fn new(overall: OverallAppraisal, stat_range: StatRange, top_stat: TopStat) -> (r:
        PokeEvaluation)
        ensures
            r == Self::spec_new(overall, stat_range, top_stat),
            r@ == (Evaluation { overall, stat_range, top_stats: top_stat@ }),
    {
        PokeEvaluation { overall, stat_range, top_stat }
    }

    /// `overall` as a spec function.
    pub open spec fn spec_overall(&self) -> OverallAppraisal {
        self@.overall
    }

    /// The recorded verdict on the sum of the stats.
    #[verifier::when_used_as_spec(spec_overall)]
    pub fn overall(&self) -> (r: OverallAppraisal)
        ensures
            r == self@.overall,
    {
        self.overall
    }

    /// `stat_range` as a spec function.
    pub open spec fn spec_stat_range(&self) -> StatRange {
        self@.stat_range
    }

    /// The recorded verdict on the highest stat.
    #[verifier::when_used_as_spec(spec_stat_range)]
    pub fn stat_range(&self) -> (r: StatRange)
        ensures
            r == self@.stat_range,
    {
        self.stat_range
    }

    /// `top_stat` as a spec function.
    pub open spec fn spec_top_stat(&self) -> TopStat {
        TopStat::of_set(self@.top_stats)
    }

    /// The recorded stats tied for highest.
    #[verifier::when_used_as_spec(spec_top_stat)]
    pub fn top_stat(&self) -> (r: TopStat)
        ensures
            r == self.spec_top_stat(),
            r@ == self@.top_stats,
    {
        proof {
            TopStat::lemma_of_set(self@.top_stats);
            self.top_stat.lemma_view_injective(self.spec_top_stat());
        }
        self.top_stat
    }
}

/// A stat triple whose three stats all lie in `0..=MAX_STAT`.
#[derive(Clone, Copy, PartialEq, Eq, Debug, Hash, Structural)]
pub struct IndividualValue {
    attack: u8,
    defense: u8,
    stamina: u8,
}

impl View for IndividualValue {
    type V = Stats;

    closed spec fn view(&self) -> Stats {
        Stats {
            attack: self.attack as nat,
            defense: self.defense as nat,
            stamina: self.stamina as nat,
        }
    }
}

impl IndividualValue {
    /// All three stats are in range. This holds of every value that
    /// executable code can get hold of.
    #[verifier::type_invariant]
    pub open spec fn wf(&self) -> bool {
        self@.valid()
    }

    /// The triple whose view is `stats`, where `stats` is valid.
    pub closed spec fn of_stats(stats: Stats) -> IndividualValue {
        IndividualValue {
            attack: stats.attack as u8,
            defense: stats.defense as u8,
            stamina: stats.stamina as u8,
        }
    }

    /// `of_stats` undoes the view on valid stats.
    pub proof fn lemma_of_stats(stats: Stats)
        requires
            stats.valid(),
        ensures
            Self::of_stats(stats)@ == stats,
            Self::of_stats(stats).wf(),
    {
    }

    /// `new` as a spec function.
    pub open spec fn spec_new(attack: u8, defense: u8, stamina: u8) -> Option<IndividualValue> {
        if Self::valid_stat(attack) && Self::valid_stat(defense) && Self::valid_stat(stamina) {
            Some(
                Self::of_stats(
                    Stats {
                        attack: attack as nat,
                        defense: defense as nat,
                        stamina: stamina as nat,
                    },
                ),
            )
        } else {
            None
        }
    }

    /// Builds the triple, or gives `None` when a stat is out of range.
    #[verifier::when_used_as_spec(spec_new)]
    pub fn new(attack: u8, defense: u8, stamina: u8) -> (r: Option<IndividualValue>)
        ensures
            r == Self::spec_new(attack, defense, stamina),
            r is Some <==> attack <= MAX_STAT && defense <= MAX_STAT && stamina <= MAX_STAT,
            r matches Some(value) ==> value@ == (Stats {
                attack: attack as nat,
                defense: defense as nat,
                stamina: stamina as nat,
            }),
    {
        if !IndividualValue::valid_stat(attack) || !IndividualValue::valid_stat(defense)
            || !IndividualValue::valid_stat(stamina) {
            return None;
        }
        Some(IndividualValue { attack, defense, stamina })
    }

    /// Checks a triple that is given as a tuple. Nothing is handed back: to
    /// get the value, call `new`.
    pub fn from_tuple(stats: (u8, u8, u8)) {
        let _ = IndividualValue::new(stats.0, stats.1, stats.2);
    }

    /// `valid_stat` as a spec function.
    pub open spec fn spec_valid_stat(num: u8) -> bool {
        num <= MAX_STAT
    }

    /// Whether `num` is a legal value for a single stat.
    #[verifier::when_used_as_spec(spec_valid_stat)]
    pub fn valid_stat(num: u8) -> (r: bool)
        ensures
            r == (num <= MAX_STAT),
    {
        num <= MAX_STAT
    }

    /// `attack` as a spec function.
    pub open spec fn spec_attack(&self) -> u8 {
        self@.attack as u8
    }

    /// The attack stat.
    #[verifier::when_used_as_spec(spec_attack)]
    pub fn attack(&self) -> (r: u8)
        ensures
            r == self@.attack,
            r <= MAX_STAT,
    {
        proof {
            use_type_invariant(self);
        }
        self.attack
    }

    /// `defense` as a spec function.
    pub open spec fn spec_defense(&self) -> u8 {
        self@.defense as u8
    }

    /// The defense stat.
    #[verifier::when_used_as_spec(spec_defense)]
    pub fn defense(&self) -> (r: u8)
        ensures
            r == self@.defense,
            r <= MAX_STAT,
    {
        proof {
            use_type_invariant(self);
        }
        self.defense
    }

    /// `stamina` as a spec function.
    pub open spec fn spec_stamina(&self) -> u8 {
        self@.stamina as u8
    }

    /// The stamina stat.
    #[verifier::when_used_as_spec(spec_stamina)]
    pub fn stamina(&self) -> (r: u8)
        ensures
            r == self@.stamina,
            r <= MAX_STAT,
    {
        proof {
            use_type_invariant(self);
        }
        self.stamina
    }

    /// `highest_stat_value` as a spec function.
    pub open spec fn spec_highest_stat_value(&self) -> u8 {
        self@.highest() as u8
    }

    /// The largest of the three stats: it is one of them, and none is above it.
    #[verifier::when_used_as_spec(spec_highest_stat_value)]
    pub fn highest_stat_value(&self) -> (r: u8)
        ensures
            r == self@.highest(),
            r >= self@.attack && r >= self@.defense && r >= self@.stamina,
            r == self@.attack || r == self@.defense || r == self@.stamina,
            r <= MAX_STAT,
    {
        self.attack().max(self.defense().max(self.stamina()))
    }

    /// `top_stat` as a spec function.
    pub open spec fn spec_top_stat(&self) -> TopStat {
        TopStat::of_set(self@.top_stats())
    }

    /// Flags every stat that reaches the highest value. Stats that are tied
    /// for highest are all flagged.
    #[verifier::when_used_as_spec(spec_top_stat)]
    pub fn top_stat(&self) -> (r: TopStat)
        ensures
            r == self.spec_top_stat(),
            r@ == self@.top_stats(),
    {
        let highest_stat: u8 = self.highest_stat_value();
        let top = TopStat::new(
            self.attack() == highest_stat,
            self.defense() == highest_stat,
            self.stamina() == highest_stat,
        ).unwrap();
        proof {
            assert(top@ =~= self@.top_stats());
            top.lemma_view_injective(self.spec_top_stat());
        }
        top
    }

    /// `as_tuple` as a spec function.
    pub open spec fn spec_as_tuple(&self) -> (u8, u8, u8) {
        (self.attack(), self.defense(), self.stamina())
    }

    /// The three stats in the order attack, defense, stamina.
    #[verifier::when_used_as_spec(spec_as_tuple)]
    pub fn as_tuple(&self) -> (r: (u8, u8, u8))
        ensures
            r == (self.attack(), self.defense(), self.stamina()),
            r.0 == self@.attack && r.1 == self@.defense && r.2 == self@.stamina,
    {
        (self.attack(), self.defense(), self.stamina())
    }

    /// `overall_appraisal` as a spec function.
    pub open spec fn spec_overall_appraisal(&self) -> OverallAppraisal {
        self@.appraisal()
    }

    /// Classifies the triple by the sum of its stats: up to 22 is bad, up to
    /// 29 okay, up to 36 good, anything above great.
    #[verifier::when_used_as_spec(spec_overall_appraisal)]
    pub fn overall_appraisal(&self) -> (r: OverallAppraisal)
        ensures
            r == self@.appraisal(),
    {
        let stat_sum: u8 = self.attack() + self.defense() + self.stamina();
        if stat_sum <= 22 {
            OverallAppraisal::Bad
        } else if stat_sum <= 29 {
            OverallAppraisal::Okay
        } else if stat_sum <= 36 {
            OverallAppraisal::Good
        } else {
            OverallAppraisal::Great
        }
    }

    /// `matches_evaluation` as a spec function.
    pub open spec fn spec_matches_evaluation(&self, evaluation: PokeEvaluation) -> bool {
        evaluation@.admits(self@)
    }

    /// Whether `evaluation` is true of this triple: the verdict on the sum,
    /// the verdict on the highest stat and the stats tied for highest must all
    /// three be those of the triple.
    #[verifier::when_used_as_spec(spec_matches_evaluation)]
    pub fn matches_evaluation(&self, evaluation: PokeEvaluation) -> (r: bool)
        ensures
            r == evaluation@.admits(self@),
    {
        self.overall_appraisal() == evaluation.overall() && self.stat_range()
            == evaluation.stat_range() && evaluation.top_stat().matches(self)
    }

    /// `stat_range` as a spec function.
    pub open spec fn spec_stat_range(&self) -> StatRange {
        self@.range()
    }

    /// Classifies the triple by its highest stat: up to 7 is low, up to 12
    /// average, up to 14 high, and 15 perfect.
    #[verifier::when_used_as_spec(spec_stat_range)]
    pub fn stat_range(&self) -> (r: StatRange)
        ensures
            r == self@.range(),
    {
        let max_stat: u8 = self.highest_stat_value();
        if max_stat <= 7 {
            StatRange::Low
        } else if max_stat <= 12 {
            StatRange::Average
        } else if max_stat <= 14 {
            StatRange::High
        } else {
            StatRange::Perfect
        }
    }

    /// `is_perfect` as a spec function.
    pub open spec fn spec_is_perfect(&self) -> bool {
        self@.perfect()
    }

    /// Whether all three stats have the largest value a stat can take. The
    /// stats are looked at one by one; the range of the triple is not asked.
    #[verifier::when_used_as_spec(spec_is_perfect)]
    pub fn is_perfect(&self) -> (r: bool)
        ensures
            r == self@.perfect(),
    {
        self.attack() == MAX_STAT && self.defense() == MAX_STAT && self.stamina() == MAX_STAT
    }
}

} // verus!
