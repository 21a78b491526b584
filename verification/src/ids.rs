use vstd::prelude::*;

verus! {

/// The game's numeric ids for the situations a fighter can be in.
pub struct Situations {
    pub ground: i32,
    pub air: i32,
    pub cliff: i32,
}

/// The game's numeric ids for the status kinds shared by every fighter.
pub struct StatusKinds {
    pub appeal: i32,
    pub wait: i32,
    pub dash: i32,
    pub turn: i32,
    pub turn_dash: i32,
    pub squat: i32,
    pub squat_wait: i32,
    pub squat_f: i32,
    pub squat_b: i32,
    pub squat_rv: i32,
    pub landing: i32,
    pub landing_light: i32,
    pub landing_attack_air: i32,
    pub landing_fall_special: i32,
    pub landing_damage_light: i32,
    pub guard: i32,
    pub guard_damage: i32,
    pub item_heavy_pickup: i32,
    pub damage: i32,
    pub damage_air: i32,
    pub damage_fall: i32,
    pub damage_fly: i32,
    pub damage_fly_roll: i32,
    pub damage_fly_meteor: i32,
    pub damage_fly_reflect_lr: i32,
    pub damage_fly_reflect_u: i32,
    pub damage_fly_reflect_d: i32,
    pub damage_song: i32,
    pub damage_sleep_start: i32,
    pub damage_sleep: i32,
    pub damage_sleep_end: i32,
    pub down_damage: i32,
    pub saving_damage: i32,
    pub air_lasso: i32,
    pub air_lasso_reach: i32,
    pub air_lasso_hang: i32,
    pub air_lasso_rewind: i32,
    pub air_lasso_landing: i32,
    pub tread_damage: i32,
    pub tread_damage_rv: i32,
    pub escape: i32,
    pub escape_f: i32,
    pub escape_b: i32,
    pub escape_air: i32,
    pub escape_air_slide: i32,
    pub catch: i32,
    pub catch_dash: i32,
    pub catch_turn: i32,
    pub catch_pull: i32,
    pub catch_wait: i32,
    pub catch_attack: i32,
    pub catch_cut: i32,
    pub throw: i32,
    pub thrown: i32,
    pub shouldered_donkey: i32,
    pub catched_ridley: i32,
    pub catched_reflet: i32,
    pub catched_ganon: i32,
    pub catched_air_ganon: i32,
    pub catched_cut_ganon: i32,
    pub attack: i32,
    pub attack_air: i32,
    pub attack_s3: i32,
    pub attack_hi3: i32,
    pub attack_lw3: i32,
    pub attack_s4_start: i32,
    pub attack_hi4_start: i32,
    pub attack_lw4_start: i32,
    pub special_n: i32,
    pub special_s: i32,
    pub special_hi: i32,
    pub special_lw: i32,
    pub fall: i32,
    pub fall_special: i32,
    pub rebirth: i32,
    pub dead: i32,
    pub win: i32,
    pub lose: i32,
    pub entry: i32,
}

} // verus!
