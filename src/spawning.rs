//! Layout of the level: the batches of hazards and the rings of scenery.

use vstd::prelude::*;
use crate::hazards::CubeType;
use crate::random::roll_below;

verus! {

/// Number of levels of the tunnel, ten units apart.
pub const LEVELS: u64 = 300;

/// A hazard is placed on every third level.
pub const HAZARD_SPACING: u64 = 3;

/// Distance between two levels: 10 units.
pub const LEVEL_HEIGHT: i64 = 10_000;

/// The kind of hazard that a draw from `0..3` gives.
pub open spec fn spec_kind_from_roll(roll: u32) -> CubeType {
    if roll == 0 {
        CubeType::Brake
    } else if roll == 1 {
        CubeType::Health
    } else if roll == 2 {
        CubeType::Speed
    } else {
        CubeType::Environment
    }
}

/// Maps a draw to a hazard kind: 0 brake, 1 health, 2 speed, anything else
/// scenery.
pub fn kind_from_roll(roll: u32) -> (r: CubeType)
    ensures
        r == spec_kind_from_roll(roll),
{
    if roll == 0 {
        CubeType::Brake
    } else if roll == 1 {
        CubeType::Health
    } else if roll == 2 {
        CubeType::Speed
    } else {
        CubeType::Environment
    }
}

/// A hazard to be placed: its level and its kind.
#[derive(Clone, Copy, Debug, PartialEq, Eq, Structural)]
pub struct HazardSpawn {
    pub level: u64,
    pub cube_type: CubeType,
}

/// Height of a level, in thousandths.
pub fn level_height(level: u64) -> (r: i64)
    requires
        level <= i64::MAX / LEVEL_HEIGHT,
    ensures
        r == level * LEVEL_HEIGHT,
{
    level as i64 * LEVEL_HEIGHT
}

/// A batch of hazards from one draw per hazard: the hazard at position `i`
/// stands on level `3 * i`, of the kind that draw `i` gives.
pub fn plan_from_rolls(rolls: &Vec<u32>) -> (r: Vec<HazardSpawn>)
    requires
        rolls@.len() == LEVELS / HAZARD_SPACING,
    ensures
        r@.len() == rolls@.len(),
        forall|i: int|
            0 <= i < r@.len() ==> (#[trigger] r@[i]).level == HAZARD_SPACING * i
                && r@[i].cube_type == spec_kind_from_roll(rolls@[i]),
{
    let mut out: Vec<HazardSpawn> = Vec::new();
    let mut i: usize = 0;
    while i < rolls.len()
        invariant
            i <= rolls@.len(),
            rolls@.len() == LEVELS / HAZARD_SPACING,
            out@.len() == i,
            forall|k: int|
                0 <= k < i ==> (#[trigger] out@[k]).level == HAZARD_SPACING * k
                    && out@[k].cube_type == spec_kind_from_roll(rolls@[k]),
        decreases rolls@.len() - i,
    {
        out.push(HazardSpawn { level: i as u64 * HAZARD_SPACING, cube_type: kind_from_roll(rolls[i]) });
        i = i + 1;
    }
    out
}

/// A new batch of hazards: one on every third level from the bottom, each a
/// brake, health or speed hazard drawn at random.
pub fn plan_game_spheres() -> (r: Vec<HazardSpawn>)
    ensures
        r@.len() == LEVELS / HAZARD_SPACING,
        forall|i: int|
            0 <= i < r@.len() ==> (#[trigger] r@[i]).level == HAZARD_SPACING * i
                && r@[i].cube_type != CubeType::Environment,
{
    let mut rolls: Vec<u32> = Vec::new();
    let mut j: u64 = 0;
    while j < LEVELS / HAZARD_SPACING
        invariant
            j <= LEVELS / HAZARD_SPACING,
            rolls@.len() == j,
            forall|k: int| 0 <= k < j ==> #[trigger] rolls@[k] < 3,
        decreases LEVELS / HAZARD_SPACING - j,
    {
        rolls.push(roll_below(3));
        j = j + 1;
    }
    let r = plan_from_rolls(&rolls);
    assert forall|i: int| 0 <= i < r@.len() implies (#[trigger] r@[i]).cube_type != CubeType::Environment by {
        assert(rolls@[i] < 3);
    }
    r
}

/// Turning direction of the floor ring at `level`: 0 on even levels, 1 on
/// odd ones.
pub fn floor_direction(level: u64) -> (r: u8)
    ensures
        r as int == level % 2,
{
    (level % 2) as u8
}

} // verus!
