//! What holds of the triple, its classifications and the matching test,
//! whatever the values. Each statement is proved from the contracts and the
//! model alone.

use vstd::prelude::*;
use crate::ivs::{IndividualValue, OverallAppraisal, PokeEvaluation, StatRange, TopStat};
use crate::model::{lemma_tops_are, stat_set, Stat, Stats, MAX_STAT};

verus! {

/// Stats that are all in range make a triple, and the triple gives them back:
/// each accessor returns the stat it was given, and the tuple holds the three
/// in the order attack, defense, stamina.
pub proof fn lemma_new_round_trips(attack: u8, defense: u8, stamina: u8)
    requires
        attack <= MAX_STAT,
        defense <= MAX_STAT,
        stamina <= MAX_STAT,
    ensures
        IndividualValue::new(attack, defense, stamina) matches Some(value) && {
            &&& value.wf()
            &&& value.attack() == attack
            &&& value.defense() == defense
            &&& value.stamina() == stamina
            &&& value.as_tuple() == (attack, defense, stamina)
        },
{
    IndividualValue::lemma_of_stats(
        Stats { attack: attack as nat, defense: defense as nat, stamina: stamina as nat },
    );
}

/// One stat out of range is enough for no triple to be made.
pub proof fn lemma_new_rejects_out_of_range(attack: u8, defense: u8, stamina: u8)
    requires
        attack > MAX_STAT || defense > MAX_STAT || stamina > MAX_STAT,
    ensures
        IndividualValue::new(attack, defense, stamina) is None,
{
}

/// Flags of which one at least is up make a value, and the value gives each
/// flag back; with all three flags down no value is made.
pub proof fn lemma_top_stat_new_round_trips(attack: bool, defense: bool, stamina: bool)
    ensures
        attack || defense || stamina ==> (TopStat::new(attack, defense, stamina) matches Some(top)
            && {
            &&& top.wf()
            &&& top.attack_hi() == attack
            &&& top.defense_hi() == defense
            &&& top.stamina_hi() == stamina
        }),
        !(attack || defense || stamina) ==> TopStat::new(attack, defense, stamina) is None,
{
    TopStat::lemma_of_set(stat_set(attack, defense, stamina));
}

/// An evaluation gives back, unchanged, the three parts it was made of.
pub proof fn lemma_evaluation_round_trips(
    overall: OverallAppraisal,
    stat_range: StatRange,
    top_stat: TopStat,
)
    ensures
        PokeEvaluation::new(overall, stat_range, top_stat).overall() == overall,
        PokeEvaluation::new(overall, stat_range, top_stat).stat_range() == stat_range,
        PokeEvaluation::new(overall, stat_range, top_stat).top_stat() == top_stat,
{
    PokeEvaluation::lemma_new(overall, stat_range, top_stat);
    TopStat::lemma_of_set(top_stat@);
    top_stat.lemma_view_injective(TopStat::of_set(top_stat@));
}

/// `highest` is at least every stat and is the value of one of them, so the
/// set of stats that reach it is never empty.
pub proof fn lemma_highest_is_maximum(stats: Stats)
    ensures
        forall|stat: Stat| stats.get(stat) <= stats.highest(),
        exists|stat: Stat| stats.top_stats().contains(stat),
{
    if stats.attack == stats.highest() {
        assert(stats.top_stats().contains(Stat::Attack));
    } else if stats.defense == stats.highest() {
        assert(stats.top_stats().contains(Stat::Defense));
    } else {
        assert(stats.top_stats().contains(Stat::Stamina));
    }
}

/// The stats that a triple has tied for highest are never none, and they
/// match the triple they were taken from.
pub proof fn lemma_own_top_stat_matches(value: IndividualValue)
    ensures
        value.top_stat().wf(),
        value.top_stat().matches(&value),
{
    TopStat::lemma_of_set(value@.top_stats());
}

/// Matching is exact: the only value that matches a triple is the one that
/// the triple itself gives. A value that flags fewer stats, or more, does not
/// match.
pub proof fn lemma_matches_only_own_top_stat(top_stat: TopStat, value: IndividualValue)
    ensures
        top_stat.matches(&value) <==> top_stat == value.top_stat(),
{
    lemma_tops_are(value@, top_stat@);
    TopStat::lemma_of_set(value@.top_stats());
    if top_stat@ == value@.top_stats() {
        top_stat.lemma_view_injective(value.top_stat());
    }
}

/// A triple matches one evaluation only: the one put together from its own
/// two verdicts and its own tied stats.
pub proof fn lemma_matches_only_own_evaluation(value: IndividualValue, evaluation: PokeEvaluation)
    ensures
        value.matches_evaluation(evaluation) <==> evaluation == PokeEvaluation::new(
            value.overall_appraisal(),
            value.stat_range(),
            value.top_stat(),
        ),
{
    let own = PokeEvaluation::new(
        value.overall_appraisal(),
        value.stat_range(),
        value.top_stat(),
    );
    PokeEvaluation::lemma_new(value.overall_appraisal(), value.stat_range(), value.top_stat());
    TopStat::lemma_of_set(value@.top_stats());
    lemma_tops_are(value@, evaluation@.top_stats);
    if evaluation@.admits(value@) {
        evaluation.lemma_view_injective(own);
    }
}

/// A triple is perfect exactly when its highest stat is in the perfect range
/// and all three stats are tied for highest. The perfect range alone is not
/// enough: one stat of 15 gives it.
pub proof fn lemma_perfect_is_perfect_range_and_full_tie(value: IndividualValue)
    requires
        value.wf(),
    ensures
        value.is_perfect() <==> {
            &&& value.stat_range() == StatRange::Perfect
            &&& value.top_stat().attack_hi()
            &&& value.top_stat().defense_hi()
            &&& value.top_stat().stamina_hi()
        },
{
    TopStat::lemma_of_set(value@.top_stats());
}

/// The verdict on the sum, band by band: bad up to 22, okay from 23 to 29,
/// good from 30 to 36, great from 37.
pub proof fn lemma_appraisal_bands(value: IndividualValue)
    ensures
        value.overall_appraisal() == OverallAppraisal::Bad <==> value@.sum() <= 22,
        value.overall_appraisal() == OverallAppraisal::Okay <==> 23 <= value@.sum() <= 29,
        value.overall_appraisal() == OverallAppraisal::Good <==> 30 <= value@.sum() <= 36,
        value.overall_appraisal() == OverallAppraisal::Great <==> 37 <= value@.sum(),
{
}

/// The verdict on the highest stat, band by band: low up to 7, average from
/// 8 to 12, high for 13 and 14, perfect for 15.
pub proof fn lemma_range_bands(value: IndividualValue)
    requires
        value.wf(),
    ensures
        value.stat_range() == StatRange::Low <==> value.highest_stat_value() <= 7,
        value.stat_range() == StatRange::Average <==> 8 <= value.highest_stat_value() <= 12,
        value.stat_range() == StatRange::High <==> 13 <= value.highest_stat_value() <= 14,
        value.stat_range() == StatRange::Perfect <==> value.highest_stat_value() == 15,
{
}

/// The verdicts are in order: a triple with the higher sum never has the
/// lower appraisal, and a triple with the higher highest stat never has the
/// lower range.
pub proof fn lemma_verdicts_rise(low: IndividualValue, high: IndividualValue)
    ensures
        low@.sum() <= high@.sum() ==> low.overall_appraisal().rank()
            <= high.overall_appraisal().rank(),
        low@.highest() <= high@.highest() ==> low.stat_range().rank() <= high.stat_range().rank(),
{
}

/// The upper bound of a range admits a triple, stat by stat, exactly when
/// the triple's own range is that range or a lower one. So no stat of a
/// triple is above the bound of the triple's own range.
pub proof fn lemma_max_stats_bounds(value: IndividualValue, range: StatRange)
    requires
        value.wf(),
    ensures
        value@.all_le(range.max_stats()@) <==> value.stat_range().rank() <= range.rank(),
        value@.all_le(value.stat_range().max_stats()@),
{
    IndividualValue::lemma_of_stats(range.max_bound());
    IndividualValue::lemma_of_stats(value.stat_range().max_bound());
}

/// No stat of a triple is below the lower bound of the triple's own verdict,
/// unless the verdict is good. The bound of good is 1 in each stat, while a
/// triple of 0, 15 and 15 has the sum 30 and so is good: the bound is a
/// figure of its own and does not follow from the sums. In the other
/// direction nothing holds: the stats 7, 7 and 7 are not below the bound of
/// great, and with the sum 21 they are bad.
pub proof fn lemma_min_stats_bounds(value: IndividualValue)
    requires
        value.wf(),
        value.overall_appraisal() != OverallAppraisal::Good,
    ensures
        value.overall_appraisal().min_stats()@.all_le(value@),
{
    IndividualValue::lemma_of_stats(value.overall_appraisal().min_bound());
}

} // verus!
