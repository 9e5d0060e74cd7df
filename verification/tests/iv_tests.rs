use pokemon_iv::ivs::{IndividualValue, OverallAppraisal, StatRange, TopStat};

fn iv(attack: u8, defense: u8, stamina: u8) -> IndividualValue {
    IndividualValue::new(attack, defense, stamina).unwrap()
}

#[test]
fn top_stat_new() {
    assert!(TopStat::new(false, false, false).is_none());
    assert!(TopStat::new(true, true, true).is_some());

    let top_stat = TopStat::new(true, false, true).unwrap();
    assert!(top_stat.attack_hi());
    assert!(!top_stat.defense_hi());
    assert!(top_stat.stamina_hi());
}

#[test]
fn top_stat_match() {
    let top_stat = TopStat::new(false, true, true).unwrap();
    let iv = IndividualValue::new(0, 11, 11).unwrap();

    assert!(top_stat.matches(&iv));

    let iv = IndividualValue::new(11, 11, 0).unwrap();
    assert!(!top_stat.matches(&iv));
}

#[test]
fn iv_new() {
    assert!(IndividualValue::new(0, 0, 0).is_some());
    assert!(IndividualValue::new(15, 15, 15).is_some());

    assert!(IndividualValue::new(16, 15, 0).is_none());

    let iv = IndividualValue::new(1, 2, 3).unwrap();
    assert_eq!((1, 2, 3), iv.as_tuple());
}

#[test]
fn iv_is_perfect() {
    let perfect = IndividualValue::new(15, 15, 15).unwrap();
    assert!(perfect.is_perfect());

    let not_perfect = IndividualValue::new(15, 15, 14).unwrap();
    assert!(!not_perfect.is_perfect())
}

#[test]
fn iv_new_rejects_each_stat_out_of_range() {
    assert!(IndividualValue::new(16, 0, 0).is_none());
    assert!(IndividualValue::new(0, 16, 0).is_none());
    assert!(IndividualValue::new(0, 0, 16).is_none());
    assert!(IndividualValue::new(255, 255, 255).is_none());
    assert!(IndividualValue::new(15, 15, 255).is_none());
}

#[test]
fn iv_accessors_give_each_stat_back() {
    let value = iv(4, 9, 13);
    assert_eq!(4, value.attack());
    assert_eq!(9, value.defense());
    assert_eq!(13, value.stamina());
    assert_eq!((4, 9, 13), value.as_tuple());
}

#[test]
fn valid_stat_ends_at_fifteen() {
    assert!(IndividualValue::valid_stat(0));
    assert!(IndividualValue::valid_stat(15));
    assert!(!IndividualValue::valid_stat(16));
    assert!(!IndividualValue::valid_stat(255));
}

#[test]
fn from_tuple_takes_any_tuple() {
    IndividualValue::from_tuple((1, 2, 3));
    IndividualValue::from_tuple((16, 0, 0));
}

#[test]
fn highest_stat_value_is_the_largest_stat() {
    assert_eq!(0, iv(0, 0, 0).highest_stat_value());
    assert_eq!(9, iv(9, 3, 5).highest_stat_value());
    assert_eq!(9, iv(3, 9, 5).highest_stat_value());
    assert_eq!(9, iv(3, 5, 9).highest_stat_value());
    assert_eq!(11, iv(11, 11, 0).highest_stat_value());
    assert_eq!(15, iv(15, 15, 15).highest_stat_value());
}

#[test]
fn top_stat_keeps_ties() {
    let single = iv(3, 9, 5).top_stat();
    assert_eq!(
        (false, true, false),
        (single.attack_hi(), single.defense_hi(), single.stamina_hi())
    );
    let pair = iv(11, 4, 11).top_stat();
    assert_eq!(
        (true, false, true),
        (pair.attack_hi(), pair.defense_hi(), pair.stamina_hi())
    );
    let all = iv(0, 0, 0).top_stat();
    assert_eq!(
        (true, true, true),
        (all.attack_hi(), all.defense_hi(), all.stamina_hi())
    );
    assert_eq!(TopStat::new(true, false, true).unwrap(), pair);
}

#[test]
fn top_stat_with_fewer_or_more_flags_is_no_match() {
    let tied = iv(11, 11, 0);
    assert!(TopStat::new(true, true, false).unwrap().matches(&tied));
    assert!(!TopStat::new(true, false, false).unwrap().matches(&tied));
    assert!(!TopStat::new(false, true, false).unwrap().matches(&tied));
    assert!(!TopStat::new(true, true, true).unwrap().matches(&tied));
    assert!(!TopStat::new(false, false, true).unwrap().matches(&tied));
}

#[test]
fn overall_appraisal_boundaries() {
    assert_eq!(OverallAppraisal::Bad, iv(0, 0, 0).overall_appraisal());
    assert_eq!(OverallAppraisal::Bad, iv(7, 7, 8).overall_appraisal());
    assert_eq!(OverallAppraisal::Okay, iv(7, 8, 8).overall_appraisal());
    assert_eq!(OverallAppraisal::Okay, iv(9, 10, 10).overall_appraisal());
    assert_eq!(OverallAppraisal::Good, iv(10, 10, 10).overall_appraisal());
    assert_eq!(OverallAppraisal::Good, iv(12, 12, 12).overall_appraisal());
    assert_eq!(OverallAppraisal::Great, iv(12, 12, 13).overall_appraisal());
    assert_eq!(OverallAppraisal::Great, iv(15, 15, 15).overall_appraisal());
}

#[test]
fn overall_appraisal_goes_by_the_sum_alone() {
    assert_eq!(OverallAppraisal::Bad, iv(15, 7, 0).overall_appraisal());
    assert_eq!(OverallAppraisal::Okay, iv(15, 8, 0).overall_appraisal());
    assert_eq!(OverallAppraisal::Good, iv(0, 15, 15).overall_appraisal());
    assert_eq!(OverallAppraisal::Great, iv(7, 15, 15).overall_appraisal());
}

#[test]
fn stat_range_boundaries() {
    assert_eq!(StatRange::Low, iv(0, 0, 0).stat_range());
    assert_eq!(StatRange::Low, iv(7, 0, 3).stat_range());
    assert_eq!(StatRange::Average, iv(0, 8, 3).stat_range());
    assert_eq!(StatRange::Average, iv(12, 12, 0).stat_range());
    assert_eq!(StatRange::High, iv(1, 2, 13).stat_range());
    assert_eq!(StatRange::High, iv(14, 2, 13).stat_range());
    assert_eq!(StatRange::Perfect, iv(0, 15, 0).stat_range());
    assert_eq!(StatRange::Perfect, iv(15, 15, 15).stat_range());
}

#[test]
fn is_perfect_asks_all_three_stats() {
    assert!(!iv(14, 15, 15).is_perfect());
    assert!(!iv(15, 14, 15).is_perfect());
    assert!(!iv(15, 0, 0).is_perfect());
    assert_eq!(StatRange::Perfect, iv(15, 0, 0).stat_range());
}

#[test]
fn min_stats_of_each_appraisal() {
    assert_eq!((7, 7, 7), OverallAppraisal::Great.min_stats().as_tuple());
    assert_eq!((1, 1, 1), OverallAppraisal::Good.min_stats().as_tuple());
    assert_eq!((0, 0, 0), OverallAppraisal::Okay.min_stats().as_tuple());
    assert_eq!((0, 0, 0), OverallAppraisal::Bad.min_stats().as_tuple());
}

#[test]
fn max_stats_of_each_range() {
    assert_eq!((7, 7, 7), StatRange::Low.max_stats().as_tuple());
    assert_eq!((12, 12, 12), StatRange::Average.max_stats().as_tuple());
    assert_eq!((14, 14, 14), StatRange::High.max_stats().as_tuple());
    assert_eq!((15, 15, 15), StatRange::Perfect.max_stats().as_tuple());
}

#[test]
fn values_compare_copy_and_print() {
    let value = iv(1, 2, 3);
    let copy = value;
    assert_eq!(value, copy);
    assert_ne!(value, iv(1, 2, 4));
    assert_eq!(
        "IndividualValue { attack: 1, defense: 2, stamina: 3 }",
        format!("{:?}", value)
    );
    assert_eq!("Great", format!("{:?}", OverallAppraisal::Great));
    assert_ne!(StatRange::Low, StatRange::Average);
    let mut seen = std::collections::HashSet::new();
    assert!(seen.insert(value));
    assert!(!seen.insert(copy));
}
