use vstd::prelude::*;

verus! {

/// After the game's dive check, a reserved fast-fall turns the motion's vertical speed into
/// gravity, but only while the move's physics follow its motion in the air.
pub fn dive_resets_gravity(reserve_dive: bool, kinetic_type: i32, motion_air: i32, motion_air_angle: i32) -> (r: bool)
    ensures
        r == (reserve_dive && (kinetic_type == motion_air || kinetic_type == motion_air_angle)),
{
    reserve_dive && (kinetic_type == motion_air || kinetic_type == motion_air_angle)
}

} // verus!
