//! The stardust cost of a power-up and the levels a creature can have when
//! the game asks that cost.
//!
//! A level is a multiple of one half. It is held as a count of half levels:
//! 2 is level 1, 3 is level 1.5, and 80 is level 40, the highest there is.

use vstd::prelude::*;

verus! {

/// Every cost that the game asks, with the levels at which it asks it, in
/// half levels. The rows are those of the game, as they are: the row of 1000
/// ends in 23 and the rows of 1600 and of 4000 leave a half level out.
pub open spec fn level_map() -> Map<u32, Seq<u8>> {
    map![
        200u32 => seq![2u8, 3, 4, 5],
        400u32 => seq![6u8, 7, 8, 9],
        600u32 => seq![10u8, 11, 12, 13],
        800u32 => seq![14u8, 15, 16, 17],
        1_000u32 => seq![18u8, 19, 20, 23],
        1_300u32 => seq![22u8, 23, 24, 25],
        1_600u32 => seq![26u8, 27, 29, 30],
        1_900u32 => seq![30u8, 31, 32, 33],
        2_200u32 => seq![34u8, 35, 36, 37],
        2_500u32 => seq![38u8, 39, 40, 41],
        3_000u32 => seq![42u8, 43, 44, 45],
        3_500u32 => seq![46u8, 47, 48, 49],
        4_000u32 => seq![50u8, 51, 53, 54],
        4_500u32 => seq![54u8, 55, 56, 57],
        5_000u32 => seq![58u8, 59, 60, 61],
        6_000u32 => seq![62u8, 63, 64, 65],
        7_000u32 => seq![66u8, 67, 68, 69],
        8_000u32 => seq![70u8, 71, 72, 73],
        9_000u32 => seq![74u8, 75, 76, 77],
        10_000u32 => seq![78u8, 79, 80],
    ]
}

/// The highest level there is, in half levels.
pub const MAX_HALF_LEVEL: u8 = 80;

/// Every row of the map holds three or four levels, in rising order, from
/// level 1 to the highest level.
pub proof fn lemma_level_rows(cost: u32)
    requires
        level_map().dom().contains(cost),
    ensures
        3 <= level_map()[cost].len() <= 4,
        forall|i: int|
            0 <= i < level_map()[cost].len() ==> 2 <= #[trigger] level_map()[cost][i]
                <= MAX_HALF_LEVEL,
        forall|i: int, j: int|
            0 <= i < j < level_map()[cost].len() ==> level_map()[cost][i] < level_map()[cost][j],
{
}

/// The levels, in half levels and in the game's order, that a creature can
/// have when a power-up costs `cost_to_powerup`; `None` when the game asks
/// that cost at no level. Only a cost that the game asks is found: there is
/// no nearest cost and no cost in between.
pub fn possible_levels(cost_to_powerup: u32) -> (r: Option<Vec<u8>>)
    ensures
        r is Some <==> level_map().dom().contains(cost_to_powerup),
        r matches Some(levels) ==> levels@ == level_map()[cost_to_powerup],
{
    match cost_to_powerup {
        200 => Some(vec![2, 3, 4, 5]),
        400 => Some(vec![6, 7, 8, 9]),
        600 => Some(vec![10, 11, 12, 13]),
        800 => Some(vec![14, 15, 16, 17]),
        1_000 => Some(vec![18, 19, 20, 23]),
        1_300 => Some(vec![22, 23, 24, 25]),
        1_600 => Some(vec![26, 27, 29, 30]),
        1_900 => Some(vec![30, 31, 32, 33]),
        2_200 => Some(vec![34, 35, 36, 37]),
        2_500 => Some(vec![38, 39, 40, 41]),
        3_000 => Some(vec![42, 43, 44, 45]),
        3_500 => Some(vec![46, 47, 48, 49]),
        4_000 => Some(vec![50, 51, 53, 54]),
        4_500 => Some(vec![54, 55, 56, 57]),
        5_000 => Some(vec![58, 59, 60, 61]),
        6_000 => Some(vec![62, 63, 64, 65]),
        7_000 => Some(vec![66, 67, 68, 69]),
        8_000 => Some(vec![70, 71, 72, 73]),
        9_000 => Some(vec![74, 75, 76, 77]),
        10_000 => Some(vec![78, 79, 80]),
        _ => None,
    }
}

} // verus!
