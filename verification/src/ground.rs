use vstd::prelude::*;
use crate::ids::{Situations, StatusKinds};
use crate::lists::{one_of, one_of_hash};

verus! {

/// The game's numeric ids for the fighter kinds that the ground rules name.
pub struct FighterKinds {
    pub bayonetta: i32,
    pub captain: i32,
    pub daisy: i32,
    pub dedede: i32,
    pub demon: i32,
    pub dolly: i32,
    pub donkey: i32,
    pub edge: i32,
    pub falco: i32,
    pub fox: i32,
    pub ganon: i32,
    pub gaogaen: i32,
    pub ice_climber: i32,
    pub jack: i32,
    pub kamui: i32,
    pub ken: i32,
    pub kirby: i32,
    pub koopa: i32,
    pub koopajr: i32,
    pub krool: i32,
    pub lucas: i32,
    pub luigi: i32,
    pub master: i32,
    pub miifighter: i32,
    pub miiswordsman: i32,
    pub murabito: i32,
    pub nana: i32,
    pub ness: i32,
    pub packun: i32,
    pub pacman: i32,
    pub peach: i32,
    pub pfushigisou: i32,
    pub pichu: i32,
    pub pikachu: i32,
    pub pikmin: i32,
    pub pit: i32,
    pub pitb: i32,
    pub plizardon: i32,
    pub popo: i32,
    pub richter: i32,
    pub ryu: i32,
    pub samus: i32,
    pub samusd: i32,
    pub sheik: i32,
    pub shizue: i32,
    pub simon: i32,
    pub szerosuit: i32,
    pub tantan: i32,
    pub toonlink: i32,
    pub trail: i32,
    pub wolf: i32,
    pub yoshi: i32,
    pub younglink: i32,
}

/// The game's numeric ids for the fighter-specific status kinds that the ground rules name.
pub struct UniqueStatuses {
    pub bayonetta_special_air_s_d: i32,
    pub bayonetta_special_air_s_d_landing: i32,
    pub captain_special_lw_end: i32,
    pub dedede_special_hi_failure: i32,
    pub dedede_special_lw_attack: i32,
    pub demon_special_s_landing: i32,
    pub dolly_special_lw_attack: i32,
    pub dolly_special_lw_landing: i32,
    pub dolly_special_b_landing: i32,
    pub dolly_special_hi_landing: i32,
    pub edge_special_hi_landing: i32,
    pub edge_special_hi_charged_rush: i32,
    pub edge_special_hi_rush: i32,
    pub falco_special_s_fall_landing: i32,
    pub fox_special_lw_loop: i32,
    pub fox_special_lw_hit: i32,
    pub fox_special_lw_end: i32,
    pub ganon_special_lw_end: i32,
    pub kamui_special_s_wall_attack_b: i32,
    pub kamui_special_s_wall_attack_f: i32,
    pub kamui_special_s_wall_attack_b_landing: i32,
    pub kamui_special_s_wall_attack_f_landing: i32,
    pub kirby_gaogaen_special_n: i32,
    pub kirby_luigi_special_n: i32,
    pub koopa_special_hi_g: i32,
    pub koopajr_special_hi_landing: i32,
    pub krool_special_hi_landing: i32,
    pub lucas_special_hi_reflect: i32,
    pub lucas_special_hi_hold: i32,
    pub lucas_special_hi_end: i32,
    pub luigi_special_hi_landing_fall: i32,
    pub miifighter_special_lw2_start: i32,
    pub miifighter_special_lw2_kick: i32,
    pub miifighter_special_lw2_landing: i32,
    pub miifighter_special_lw2_kick_landing: i32,
    pub miifighter_special_s2_landing: i32,
    pub miifighter_special_lw1_landing: i32,
    pub miiswordsman_special_hi1_end: i32,
    pub miiswordsman_special_s2_end: i32,
    pub miiswordsman_special_lw3_end: i32,
    pub murabito_special_hi_landing: i32,
    pub ness_special_hi_reflect: i32,
    pub ness_special_hi_hold: i32,
    pub ness_special_hi_end: i32,
    pub packun_special_hi_landing: i32,
    pub pacman_special_s_return: i32,
    pub peach_special_s_away_end: i32,
    pub pikachu_special_s_weak: i32,
    pub pikachu_special_s_attack: i32,
    pub pikachu_special_s_end: i32,
    pub pikmin_special_hi_landing: i32,
    pub pit_special_s_landing: i32,
    pub plizardon_special_s_end: i32,
    pub popo_special_hi_jump_pre: i32,
    pub popo_special_hi_partner: i32,
    pub popo_special_hi_jump_partner: i32,
    pub popo_special_hi_jump: i32,
    pub popo_special_hi_cliff_comp_partner: i32,
    pub popo_special_hi_cliff_pull_partner: i32,
    pub popo_special_hi_cliff_comp: i32,
    pub ryu_special_hi_landing: i32,
    pub sheik_special_lw_attack: i32,
    pub sheik_special_lw_landing: i32,
    pub simon_attack_lw32_landing: i32,
    pub szerosuit_special_lw_flip: i32,
    pub szerosuit_special_lw_kick: i32,
    pub szerosuit_special_lw_landing: i32,
    pub szerosuit_special_lw_kick_landing: i32,
    pub tantan_special_hi_air: i32,
    pub trail_special_s_end: i32,
    pub wolf_special_lw_loop: i32,
    pub wolf_special_lw_hit: i32,
    pub wolf_special_lw_end: i32,
}

/// Everything the ground rules compare against: situations, ground correct kinds,
/// status kinds, fighter kinds, one move customization and four motion hashes.
pub struct GroundIds {
    pub situation: Situations,
    pub status: StatusKinds,
    pub kind: FighterKinds,
    pub uniq: UniqueStatuses,
    pub correct_ground: i32,
    pub correct_air: i32,
    pub waza_customize_to_special_lw_3: i32,
    pub motion_run_fall_l: u64,
    pub motion_run_fall_r: u64,
    pub motion_walk_fall_l: u64,
    pub motion_walk_fall_r: u64,
    /// The attack kinds the game logs for the neutral, side, up and down special moves
    /// (kept through every status a special move goes through).
    pub log_attack_special_n: i32,
    pub log_attack_special_s: i32,
    pub log_attack_special_hi: i32,
    pub log_attack_special_lw: i32,
}

/// What the game reports about a fighter when its ground settings are chosen.
pub struct GroundState {
    pub is_fighter: bool,
    pub situation: i32,
    pub fighter_kind: i32,
    pub status_kind: i32,
    pub prev_status_kind: i32,
    /// The move customization the fighter uses (read by the Mii Swordfighter rule).
    pub waza_customize: i32,
}

// ---------------------------------------------------------------------------
// init_settings_edges
// ---------------------------------------------------------------------------

/// The common statuses whose ground correction is always forced to "ground" (no edge slip-off).
pub open spec fn forced_ground_statuses(s: StatusKinds) -> Seq<i32> {
    seq![
        s.wait, s.dash, s.turn, s.turn_dash, s.squat, s.squat_wait, s.squat_f, s.squat_b,
        s.squat_rv, s.landing, s.landing_light, s.landing_attack_air, s.landing_fall_special,
        s.landing_damage_light, s.guard_damage, s.item_heavy_pickup, s.damage,
        s.air_lasso_landing, s.tread_damage, s.tread_damage_rv, s.landing_damage_light,
        s.damage_song, s.damage_sleep_start, s.damage_sleep, s.damage_sleep_end,
        s.down_damage, s.saving_damage,
    ]
}

/// The fighter-specific statuses whose ground correction is forced to "ground".
pub open spec fn fighter_forces_ground(ids: GroundIds, kind: i32, status: i32, prev: i32) -> bool {
    let k = ids.kind;
    let u = ids.uniq;
    ||| (kind == k.edge && status == u.edge_special_hi_landing && prev != u.edge_special_hi_charged_rush)
    ||| (kind == k.kamui && seq![u.kamui_special_s_wall_attack_b, u.kamui_special_s_wall_attack_f,
            u.kamui_special_s_wall_attack_b_landing, u.kamui_special_s_wall_attack_f_landing].contains(status))
    ||| (kind == k.miifighter && seq![u.miifighter_special_lw2_start, u.miifighter_special_lw2_kick,
            u.miifighter_special_lw2_landing, u.miifighter_special_lw2_kick_landing,
            u.miifighter_special_s2_landing, u.miifighter_special_lw1_landing].contains(status))
    ||| (kind == k.miiswordsman && seq![u.miiswordsman_special_hi1_end, u.miiswordsman_special_s2_end].contains(status))
    ||| (kind == k.szerosuit && seq![u.szerosuit_special_lw_flip, u.szerosuit_special_lw_kick,
            u.szerosuit_special_lw_landing, u.szerosuit_special_lw_kick_landing].contains(status))
    ||| (kind == k.bayonetta && seq![u.bayonetta_special_air_s_d, u.bayonetta_special_air_s_d_landing].contains(status))
    ||| (kind == k.dolly && seq![u.dolly_special_lw_attack, u.dolly_special_lw_landing,
            u.dolly_special_b_landing, u.dolly_special_hi_landing].contains(status))
    ||| (kind == k.koopajr && status == u.koopajr_special_hi_landing)
    ||| (kind == k.sheik && seq![u.sheik_special_lw_attack, u.sheik_special_lw_landing].contains(status))
    ||| (kind == k.luigi && status == u.luigi_special_hi_landing_fall)
    ||| (kind == k.pit && status == u.pit_special_s_landing)
    ||| (kind == k.pitb && status == u.pit_special_s_landing)
    ||| (kind == k.simon && status == u.simon_attack_lw32_landing)
    ||| (kind == k.richter && status == u.simon_attack_lw32_landing)
    ||| (kind == k.demon && status == u.demon_special_s_landing)
    ||| (kind == k.ryu && status == u.ryu_special_hi_landing)
    ||| (kind == k.ken && status == u.ryu_special_hi_landing)
    ||| (kind == k.packun && status == u.packun_special_hi_landing)
    ||| (kind == k.krool && status == u.krool_special_hi_landing)
    ||| (kind == k.pikmin && status == u.pikmin_special_hi_landing)
    ||| (kind == k.falco && status == u.falco_special_s_fall_landing)
    ||| (kind == k.murabito && status == u.murabito_special_hi_landing)
    ||| (kind == k.ness && status == u.ness_special_hi_end)
    ||| (kind == k.lucas && status == u.lucas_special_hi_end)
}

/// Whether the status-initialization settings of this fighter must use the "ground" correct kind.
pub open spec fn settings_force_ground(ids: GroundIds, st: GroundState) -> bool {
    &&& st.is_fighter
    &&& st.situation == ids.situation.ground
    &&& {
        ||| st.status_kind == ids.status.appeal
        ||| forced_ground_statuses(ids.status).contains(st.status_kind)
        ||| fighter_forces_ground(ids, st.fighter_kind, st.status_kind, st.prev_status_kind)
    }
}

fn fighter_forces_ground_exec(ids: &GroundIds, kind: i32, status: i32, prev: i32) -> (r: bool)
    ensures
        r == fighter_forces_ground(*ids, kind, status, prev),
{
    let k = &ids.kind;
    let u = &ids.uniq;
    if kind == k.edge && status == u.edge_special_hi_landing && prev != u.edge_special_hi_charged_rush {
        return true;
    }
    let kamui = [u.kamui_special_s_wall_attack_b, u.kamui_special_s_wall_attack_f,
        u.kamui_special_s_wall_attack_b_landing, u.kamui_special_s_wall_attack_f_landing];
    proof { assert(kamui@ =~= seq![u.kamui_special_s_wall_attack_b, u.kamui_special_s_wall_attack_f,
        u.kamui_special_s_wall_attack_b_landing, u.kamui_special_s_wall_attack_f_landing]); }
    if kind == k.kamui && one_of(status, &kamui) {
        return true;
    }
    let mii = [u.miifighter_special_lw2_start, u.miifighter_special_lw2_kick,
        u.miifighter_special_lw2_landing, u.miifighter_special_lw2_kick_landing,
        u.miifighter_special_s2_landing, u.miifighter_special_lw1_landing];
    proof { assert(mii@ =~= seq![u.miifighter_special_lw2_start, u.miifighter_special_lw2_kick,
        u.miifighter_special_lw2_landing, u.miifighter_special_lw2_kick_landing,
        u.miifighter_special_s2_landing, u.miifighter_special_lw1_landing]); }
    if kind == k.miifighter && one_of(status, &mii) {
        return true;
    }
    let sword = [u.miiswordsman_special_hi1_end, u.miiswordsman_special_s2_end];
    proof { assert(sword@ =~= seq![u.miiswordsman_special_hi1_end, u.miiswordsman_special_s2_end]); }
    if kind == k.miiswordsman && one_of(status, &sword) {
        return true;
    }
    let zss = [u.szerosuit_special_lw_flip, u.szerosuit_special_lw_kick,
        u.szerosuit_special_lw_landing, u.szerosuit_special_lw_kick_landing];
    proof { assert(zss@ =~= seq![u.szerosuit_special_lw_flip, u.szerosuit_special_lw_kick,
        u.szerosuit_special_lw_landing, u.szerosuit_special_lw_kick_landing]); }
    if kind == k.szerosuit && one_of(status, &zss) {
        return true;
    }
    let bayo = [u.bayonetta_special_air_s_d, u.bayonetta_special_air_s_d_landing];
    proof { assert(bayo@ =~= seq![u.bayonetta_special_air_s_d, u.bayonetta_special_air_s_d_landing]); }
    if kind == k.bayonetta && one_of(status, &bayo) {
        return true;
    }
    let dolly = [u.dolly_special_lw_attack, u.dolly_special_lw_landing,
        u.dolly_special_b_landing, u.dolly_special_hi_landing];
    proof { assert(dolly@ =~= seq![u.dolly_special_lw_attack, u.dolly_special_lw_landing,
        u.dolly_special_b_landing, u.dolly_special_hi_landing]); }
    if kind == k.dolly && one_of(status, &dolly) {
        return true;
    }
    if kind == k.koopajr && status == u.koopajr_special_hi_landing {
        return true;
    }
    let sheik = [u.sheik_special_lw_attack, u.sheik_special_lw_landing];
    proof { assert(sheik@ =~= seq![u.sheik_special_lw_attack, u.sheik_special_lw_landing]); }
    if kind == k.sheik && one_of(status, &sheik) {
        return true;
    }
    (kind == k.luigi && status == u.luigi_special_hi_landing_fall)
    || (kind == k.pit && status == u.pit_special_s_landing)
    || (kind == k.pitb && status == u.pit_special_s_landing)
    || (kind == k.simon && status == u.simon_attack_lw32_landing)
    || (kind == k.richter && status == u.simon_attack_lw32_landing)
    || (kind == k.demon && status == u.demon_special_s_landing)
    || (kind == k.ryu && status == u.ryu_special_hi_landing)
    || (kind == k.ken && status == u.ryu_special_hi_landing)
    || (kind == k.packun && status == u.packun_special_hi_landing)
    || (kind == k.krool && status == u.krool_special_hi_landing)
    || (kind == k.pikmin && status == u.pikmin_special_hi_landing)
    || (kind == k.falco && status == u.falco_special_s_fall_landing)
    || (kind == k.murabito && status == u.murabito_special_hi_landing)
    || (kind == k.ness && status == u.ness_special_hi_end)
    || (kind == k.lucas && status == u.lucas_special_hi_end)
}

/// The ground correct kind that the status-initialization settings use: the given `fix`,
/// or the "ground" kind (no edge slip-off) for grounded fighters in the listed statuses.
pub fn init_settings_edges(ids: &GroundIds, st: &GroundState, fix: u32) -> (r: u32)
    ensures
        r == (if settings_force_ground(*ids, *st) { ids.correct_ground as u32 } else { fix }),
{
    if st.is_fighter && st.situation == ids.situation.ground {
        let s = &ids.status;
        if st.status_kind == s.appeal {
            return ids.correct_ground as u32;
        }
        let list = [
            s.wait, s.dash, s.turn, s.turn_dash, s.squat, s.squat_wait, s.squat_f, s.squat_b,
            s.squat_rv, s.landing, s.landing_light, s.landing_attack_air, s.landing_fall_special,
            s.landing_damage_light, s.guard_damage, s.item_heavy_pickup, s.damage,
            s.air_lasso_landing, s.tread_damage, s.tread_damage_rv, s.landing_damage_light,
            s.damage_song, s.damage_sleep_start, s.damage_sleep, s.damage_sleep_end,
            s.down_damage, s.saving_damage,
        ];
        proof { assert(list@ =~= forced_ground_statuses(ids.status)); }
        if one_of(st.status_kind, &list) {
            return ids.correct_ground as u32;
        }
        if fighter_forces_ground_exec(ids, st.fighter_kind, st.status_kind, st.prev_status_kind) {
            return ids.correct_ground as u32;
        }
    }
    fix
}

// ---------------------------------------------------------------------------
// correct_hook / check_fighter_edge_slipoffs
// ---------------------------------------------------------------------------

/// The common statuses that are always corrected with the "ground" kind.
pub open spec fn slipoff_common_statuses(s: StatusKinds) -> Seq<i32> {
    seq![
        s.landing, s.turn_dash, s.dash, s.landing_fall_special, s.damage, s.tread_damage,
        s.tread_damage_rv, s.landing_damage_light, s.damage_song, s.damage_sleep_start,
        s.damage_sleep, s.damage_sleep_end, s.down_damage, s.saving_damage,
    ]
}

/// Pikachu, Pichu, Captain Falcon, Ganondorf and Mii Swordfighter moves that are
/// corrected with the "ground" kind.
pub open spec fn slipoff_group_a(ids: GroundIds, kind: i32, status: i32, waza: i32) -> bool {
    let k = ids.kind;
    let u = ids.uniq;
    ||| ((kind == k.pikachu || kind == k.pichu) && seq![u.pikachu_special_s_weak,
            u.pikachu_special_s_attack, u.pikachu_special_s_end].contains(status))
    ||| (kind == k.captain && status == u.captain_special_lw_end)
    ||| (kind == k.ganon && status == u.ganon_special_lw_end)
    ||| (kind == k.miiswordsman && (status == u.miiswordsman_special_lw3_end
            || (waza == ids.waza_customize_to_special_lw_3 && status == ids.status.special_lw)))
}

/// Single-status moves of Bowser, Donkey Kong, Incineroar, Kirby, Luigi, Peach, Daisy,
/// Sephiroth, Yoshi, Pac-Man, Sora and Charizard that are corrected with the "ground" kind.
pub open spec fn slipoff_group_b(ids: GroundIds, kind: i32, status: i32) -> bool {
    let k = ids.kind;
    let u = ids.uniq;
    let s = ids.status;
    ||| (kind == k.koopa && status == u.koopa_special_hi_g)
    ||| (kind == k.donkey && status == s.special_hi)
    ||| (kind == k.gaogaen && status == s.special_n)
    ||| (kind == k.kirby && status == u.kirby_gaogaen_special_n)
    ||| (kind == k.luigi && status == s.special_n)
    ||| (kind == k.kirby && status == u.kirby_luigi_special_n)
    ||| (kind == k.peach && status == u.peach_special_s_away_end)
    ||| (kind == k.daisy && status == u.peach_special_s_away_end)
    ||| (kind == k.edge && status == u.edge_special_hi_rush)
    ||| (kind == k.yoshi && status == s.special_hi)
    ||| (kind == k.pacman && status == u.pacman_special_s_return)
    ||| (kind == k.trail && status == u.trail_special_s_end)
    ||| (kind == k.plizardon && status == u.plizardon_special_s_end)
}

/// King Dedede, Fox, Wolf, Ness and Lucas moves that are corrected with the "ground" kind.
pub open spec fn slipoff_group_c(ids: GroundIds, kind: i32, status: i32) -> bool {
    let k = ids.kind;
    let u = ids.uniq;
    let s = ids.status;
    ||| (kind == k.dedede && seq![s.special_s, u.dedede_special_hi_failure,
            u.dedede_special_lw_attack].contains(status))
    ||| (kind == k.fox && seq![u.fox_special_lw_loop, u.fox_special_lw_hit,
            u.fox_special_lw_end].contains(status))
    ||| (kind == k.wolf && seq![u.wolf_special_lw_loop, u.wolf_special_lw_hit,
            u.wolf_special_lw_end].contains(status))
    ||| (kind == k.ness && seq![s.special_hi, u.ness_special_hi_reflect, u.ness_special_hi_hold,
            u.ness_special_hi_end].contains(status))
    ||| (kind == k.lucas && seq![s.special_hi, u.lucas_special_hi_reflect, u.lucas_special_hi_hold,
            u.lucas_special_hi_end].contains(status))
}

/// The fighter-specific moves that are corrected with the "ground" kind.
pub open spec fn fighter_edge_slipoff(ids: GroundIds, kind: i32, status: i32, waza: i32) -> bool {
    slipoff_group_a(ids, kind, status, waza) || slipoff_group_b(ids, kind, status)
        || slipoff_group_c(ids, kind, status)
}

fn slipoff_group_a_exec(ids: &GroundIds, kind: i32, status: i32, waza: i32) -> (r: bool)
    ensures
        r == slipoff_group_a(*ids, kind, status, waza),
{
    let k = &ids.kind;
    let u = &ids.uniq;
    let pika = [u.pikachu_special_s_weak, u.pikachu_special_s_attack, u.pikachu_special_s_end];
    proof { assert(pika@ =~= seq![u.pikachu_special_s_weak, u.pikachu_special_s_attack, u.pikachu_special_s_end]); }
    ((kind == k.pikachu || kind == k.pichu) && one_of(status, &pika))
    || (kind == k.captain && status == u.captain_special_lw_end)
    || (kind == k.ganon && status == u.ganon_special_lw_end)
    || (kind == k.miiswordsman && (status == u.miiswordsman_special_lw3_end
        || (waza == ids.waza_customize_to_special_lw_3 && status == ids.status.special_lw)))
}

fn slipoff_group_b_exec(ids: &GroundIds, kind: i32, status: i32) -> (r: bool)
    ensures
        r == slipoff_group_b(*ids, kind, status),
{
    let k = &ids.kind;
    let u = &ids.uniq;
    let s = &ids.status;
    (kind == k.koopa && status == u.koopa_special_hi_g)
    || (kind == k.donkey && status == s.special_hi)
    || (kind == k.gaogaen && status == s.special_n)
    || (kind == k.kirby && status == u.kirby_gaogaen_special_n)
    || (kind == k.luigi && status == s.special_n)
    || (kind == k.kirby && status == u.kirby_luigi_special_n)
    || (kind == k.peach && status == u.peach_special_s_away_end)
    || (kind == k.daisy && status == u.peach_special_s_away_end)
    || (kind == k.edge && status == u.edge_special_hi_rush)
    || (kind == k.yoshi && status == s.special_hi)
    || (kind == k.pacman && status == u.pacman_special_s_return)
    || (kind == k.trail && status == u.trail_special_s_end)
    || (kind == k.plizardon && status == u.plizardon_special_s_end)
}

fn slipoff_group_c_exec(ids: &GroundIds, kind: i32, status: i32) -> (r: bool)
    ensures
        r == slipoff_group_c(*ids, kind, status),
{
    let k = &ids.kind;
    let u = &ids.uniq;
    let s = &ids.status;
    let dedede = [s.special_s, u.dedede_special_hi_failure, u.dedede_special_lw_attack];
    proof { assert(dedede@ =~= seq![s.special_s, u.dedede_special_hi_failure, u.dedede_special_lw_attack]); }
    if kind == k.dedede && one_of(status, &dedede) {
        return true;
    }
    let fox = [u.fox_special_lw_loop, u.fox_special_lw_hit, u.fox_special_lw_end];
    proof { assert(fox@ =~= seq![u.fox_special_lw_loop, u.fox_special_lw_hit, u.fox_special_lw_end]); }
    if kind == k.fox && one_of(status, &fox) {
        return true;
    }
    let wolf = [u.wolf_special_lw_loop, u.wolf_special_lw_hit, u.wolf_special_lw_end];
    proof { assert(wolf@ =~= seq![u.wolf_special_lw_loop, u.wolf_special_lw_hit, u.wolf_special_lw_end]); }
    if kind == k.wolf && one_of(status, &wolf) {
        return true;
    }
    let ness = [s.special_hi, u.ness_special_hi_reflect, u.ness_special_hi_hold, u.ness_special_hi_end];
    proof { assert(ness@ =~= seq![s.special_hi, u.ness_special_hi_reflect, u.ness_special_hi_hold, u.ness_special_hi_end]); }
    if kind == k.ness && one_of(status, &ness) {
        return true;
    }
    let lucas = [s.special_hi, u.lucas_special_hi_reflect, u.lucas_special_hi_hold, u.lucas_special_hi_end];
    proof { assert(lucas@ =~= seq![s.special_hi, u.lucas_special_hi_reflect, u.lucas_special_hi_hold, u.lucas_special_hi_end]); }
    kind == k.lucas && one_of(status, &lucas)
}

/// Whether this fighter's move is one that the ground rules correct with the "ground" kind.
pub fn check_fighter_edge_slipoffs(ids: &GroundIds, kind: i32, status: i32, waza: i32) -> (r: bool)
    ensures
        r == fighter_edge_slipoff(*ids, kind, status, waza),
{
    slipoff_group_a_exec(ids, kind, status, waza) || slipoff_group_b_exec(ids, kind, status)
        || slipoff_group_c_exec(ids, kind, status)
}

/// The correct kind that the game's ground correction is called with: the requested one,
/// or the "ground" kind for grounded fighters in the listed statuses and moves.
pub open spec fn corrected_kind(ids: GroundIds, st: GroundState, requested: i32) -> i32 {
    if st.is_fighter && st.situation == ids.situation.ground && (
        slipoff_common_statuses(ids.status).contains(st.status_kind)
        || fighter_edge_slipoff(ids, st.fighter_kind, st.status_kind, st.waza_customize))
    {
        ids.correct_ground
    } else {
        requested
    }
}

/// Chooses the correct kind that the game's ground correction is called with.
pub fn correct_hook(ids: &GroundIds, st: &GroundState, requested: i32) -> (r: i32)
    ensures
        r == corrected_kind(*ids, *st, requested),
        r == requested || r == ids.correct_ground,
{
    if !st.is_fighter || st.situation != ids.situation.ground {
        return requested;
    }
    let s = &ids.status;
    let list = [
        s.landing, s.turn_dash, s.dash, s.landing_fall_special, s.damage, s.tread_damage,
        s.tread_damage_rv, s.landing_damage_light, s.damage_song, s.damage_sleep_start,
        s.damage_sleep, s.damage_sleep_end, s.down_damage, s.saving_damage,
    ];
    proof { assert(list@ =~= slipoff_common_statuses(ids.status)); }
    if one_of(st.status_kind, &list)
        || check_fighter_edge_slipoffs(ids, st.fighter_kind, st.status_kind, st.waza_customize) {
        return ids.correct_ground;
    }
    requested
}

// ---------------------------------------------------------------------------
// can_entry_cliff_hook / run_vanilla_check
// ---------------------------------------------------------------------------

/// Another battle object as the ledge rules see it: its entry id and the ledge it holds.
pub struct LedgeHolder {
    pub entry_id: i32,
    pub ledge_id: i32,
}

/// What the game reports about a fighter that may grab a ledge.
pub struct CliffState {
    pub is_fighter: bool,
    pub situation: i32,
    pub status_kind: i32,
    pub fighter_kind: i32,
    /// The fighter's vertical speed is zero or upward.
    pub rising: bool,
    /// The tether's ledge check flag is on.
    pub lasso_check: bool,
    pub motion_kind: u64,
    pub cliff_id: u32,
    pub entry_id: i32,
    /// The attack kind the game logs for the fighter's current move.
    pub log_attack_kind: i32,
}

/// Ice Climbers' recovery and air dodges keep the game's own rising-ledge-grab rule.
pub open spec fn vanilla_ledge_rule(ids: GroundIds, kind: i32, status: i32) -> bool {
    let u = ids.uniq;
    ||| status == ids.status.escape_air
    ||| (seq![ids.kind.ice_climber, ids.kind.popo, ids.kind.nana].contains(kind)
        && seq![u.popo_special_hi_jump_pre, u.popo_special_hi_partner, u.popo_special_hi_jump_partner,
            u.popo_special_hi_jump, u.popo_special_hi_cliff_comp_partner,
            u.popo_special_hi_cliff_pull_partner, u.popo_special_hi_cliff_comp].contains(status))
}

/// Whether the game's own rising-ledge-grab rule applies to this fighter's status.
pub fn run_vanilla_check(ids: &GroundIds, kind: i32, status: i32) -> (r: bool)
    ensures
        r == vanilla_ledge_rule(*ids, kind, status),
{
    if status == ids.status.escape_air {
        return true;
    }
    let u = &ids.uniq;
    let kinds = [ids.kind.ice_climber, ids.kind.popo, ids.kind.nana];
    proof { assert(kinds@ =~= seq![ids.kind.ice_climber, ids.kind.popo, ids.kind.nana]); }
    let statuses = [u.popo_special_hi_jump_pre, u.popo_special_hi_partner, u.popo_special_hi_jump_partner,
        u.popo_special_hi_jump, u.popo_special_hi_cliff_comp_partner,
        u.popo_special_hi_cliff_pull_partner, u.popo_special_hi_cliff_comp];
    proof { assert(statuses@ =~= seq![u.popo_special_hi_jump_pre, u.popo_special_hi_partner, u.popo_special_hi_jump_partner,
        u.popo_special_hi_jump, u.popo_special_hi_cliff_comp_partner,
        u.popo_special_hi_cliff_pull_partner, u.popo_special_hi_cliff_comp]); }
    one_of(kind, &kinds) && one_of(status, &statuses)
}

/// The fighter is in a tether move whose ledge check is on, which may grab a held or rising ledge.
pub open spec fn tether_exempt(ids: GroundIds, st: CliffState) -> bool {
    let k = ids.kind;
    let s = ids.status;
    let kind = st.fighter_kind;
    let status = st.status_kind;
    let zair = st.is_fighter
        && seq![k.lucas, k.younglink, k.toonlink, k.samus, k.samusd, k.szerosuit].contains(kind)
        && seq![s.air_lasso, s.air_lasso_reach, s.air_lasso_hang, s.air_lasso_rewind].contains(status);
    let special = st.is_fighter && (
        (kind == k.szerosuit && status == s.special_s)
        || (kind == k.shizue && status == s.special_s)
        || (kind == k.tantan && (status == s.special_hi || status == ids.uniq.tantan_special_hi_air))
        || (kind == k.master && status == s.special_hi)
        || (kind == k.jack && status == s.special_hi)
        || (kind == k.pfushigisou && status == s.special_hi));
    let aerial = st.is_fighter && kind == k.simon && status == s.attack_air;
    (zair || special || aerial) && st.lasso_check
}

/// Another fighter (with a different entry id) already holds this ledge.
pub open spec fn ledge_held_by_other(st: CliffState, others: Seq<LedgeHolder>) -> bool {
    exists|i: int| 0 <= i < others.len() && #[trigger] others[i].entry_id != st.entry_id
        && others[i].ledge_id == st.cliff_id as i32
}

/// The motions of the first frames after running or walking off an edge.
pub open spec fn run_fall_motions(ids: GroundIds) -> Seq<u64> {
    seq![ids.motion_run_fall_l, ids.motion_run_fall_r, ids.motion_walk_fall_l, ids.motion_walk_fall_r]
}

/// The special-move statuses, whose rising ledge grabs are left to the game's own check.
pub open spec fn special_move_statuses(s: StatusKinds) -> Seq<i32> {
    seq![s.special_n, s.special_s, s.special_hi, s.special_lw]
}

/// The attack kinds of the special moves.
pub open spec fn special_attack_kinds(ids: GroundIds) -> Seq<i32> {
    seq![ids.log_attack_special_n, ids.log_attack_special_s, ids.log_attack_special_hi, ids.log_attack_special_lw]
}

/// The fighter is in a special move: in one of the shared special statuses, or in any
/// (fighter-specific) status of a move that the game logs as a special.
pub open spec fn in_special_move(ids: GroundIds, st: CliffState) -> bool {
    special_move_statuses(ids.status).contains(st.status_kind)
        || special_attack_kinds(ids).contains(st.log_attack_kind)
}

/// A fighter rising through a ledge in the air may not grab it, except in a special move,
/// an air dodge, the Ice Climbers' recovery or a tether move with its ledge check on.
pub open spec fn rising_grab_refused(ids: GroundIds, st: CliffState) -> bool {
    &&& st.is_fighter
    &&& !in_special_move(ids, st)
    &&& !vanilla_ledge_rule(ids, st.fighter_kind, st.status_kind)
    &&& st.situation == ids.situation.air
    &&& st.rising
    &&& !tether_exempt(ids, st)
}

/// Whether the ledge grab is refused before the game's own check: the ledge is held by
/// another fighter, or a fighter outside its special moves rises through it, or a fighter
/// has just run or walked off an edge.
pub open spec fn ledge_grab_refused(ids: GroundIds, st: CliffState, others: Seq<LedgeHolder>) -> bool {
    ||| (ledge_held_by_other(st, others) && !tether_exempt(ids, st))
    ||| rising_grab_refused(ids, st)
    ||| (st.is_fighter && run_fall_motions(ids).contains(st.motion_kind))
}

fn tether_exempt_exec(ids: &GroundIds, st: &CliffState) -> (r: bool)
    ensures
        r == tether_exempt(*ids, *st),
{
    let k = &ids.kind;
    let s = &ids.status;
    let kind = st.fighter_kind;
    let status = st.status_kind;
    let kinds = [k.lucas, k.younglink, k.toonlink, k.samus, k.samusd, k.szerosuit];
    proof { assert(kinds@ =~= seq![k.lucas, k.younglink, k.toonlink, k.samus, k.samusd, k.szerosuit]); }
    let lasso = [s.air_lasso, s.air_lasso_reach, s.air_lasso_hang, s.air_lasso_rewind];
    proof { assert(lasso@ =~= seq![s.air_lasso, s.air_lasso_reach, s.air_lasso_hang, s.air_lasso_rewind]); }
    let zair = st.is_fighter && one_of(kind, &kinds) && one_of(status, &lasso);
    let special = st.is_fighter && (
        (kind == k.szerosuit && status == s.special_s)
        || (kind == k.shizue && status == s.special_s)
        || (kind == k.tantan && (status == s.special_hi || status == ids.uniq.tantan_special_hi_air))
        || (kind == k.master && status == s.special_hi)
        || (kind == k.jack && status == s.special_hi)
        || (kind == k.pfushigisou && status == s.special_hi));
    let aerial = st.is_fighter && kind == k.simon && status == s.attack_air;
    (zair || special || aerial) && st.lasso_check
}

/// Whether the ledge grab may go on to the game's own check (`true`) or is refused (`false`).
pub fn can_entry_cliff(ids: &GroundIds, st: &CliffState, others: &Vec<LedgeHolder>) -> (r: bool)
    ensures
        r == !ledge_grab_refused(*ids, *st, others@),
{
    let exempt = tether_exempt_exec(ids, st);
    let cliff = st.cliff_id as i32;
    let mut i: usize = 0;
    while i < others.len()
        invariant
            i <= others.len(),
            cliff == st.cliff_id as i32,
            exempt == tether_exempt(*ids, *st),
            forall|j: int| 0 <= j < i ==> !(#[trigger] others@[j].entry_id != st.entry_id
                && others@[j].ledge_id == cliff) || exempt,
        decreases others.len() - i,
    {
        let o = &others[i];
        if o.entry_id != st.entry_id && o.ledge_id == cliff {
            if !exempt {
                assert(ledge_held_by_other(*st, others@)) by {
                    assert(others@[i as int].entry_id != st.entry_id);
                }
                return false;
            }
        }
        i = i + 1;
    }
    assert(ledge_held_by_other(*st, others@) ==> exempt);
    if st.is_fighter {
        let s = &ids.status;
        let specials = [s.special_n, s.special_s, s.special_hi, s.special_lw];
        proof { assert(specials@ =~= special_move_statuses(ids.status)); }
        let kinds = [ids.log_attack_special_n, ids.log_attack_special_s, ids.log_attack_special_hi,
            ids.log_attack_special_lw];
        proof { assert(kinds@ =~= special_attack_kinds(*ids)); }
        let special = one_of(st.status_kind, &specials) || one_of(st.log_attack_kind, &kinds);
        if !special && !run_vanilla_check(ids, st.fighter_kind, st.status_kind) {
            if st.situation == ids.situation.air && st.rising && !exempt {
                return false;
            }
        }
        let falls = [ids.motion_run_fall_l, ids.motion_run_fall_r, ids.motion_walk_fall_l, ids.motion_walk_fall_r];
        proof { assert(falls@ =~= run_fall_motions(*ids)); }
        if one_of_hash(st.motion_kind, &falls) {
            return false;
        }
    }
    true
}

/// Law: a ledge grab that is refused stays refused when more battle objects are on stage.
pub proof fn lemma_refusal_survives_more_objects(
    ids: GroundIds,
    st: CliffState,
    others: Seq<LedgeHolder>,
    more: Seq<LedgeHolder>,
)
    requires
        ledge_grab_refused(ids, st, others),
    ensures
        ledge_grab_refused(ids, st, others + more),
{
    if ledge_held_by_other(st, others) && !tether_exempt(ids, st) {
        let i = choose|i: int| 0 <= i < others.len() && #[trigger] others[i].entry_id != st.entry_id
            && others[i].ledge_id == st.cliff_id as i32;
        assert((others + more)[i] == others[i]);
        assert(ledge_held_by_other(st, others + more));
    }
}



/// Law: a ledge that another fighter holds is refused, whichever position that fighter has
/// among the battle objects, unless the grabbing fighter's tether ledge check is on.
pub proof fn lemma_ledge_held_by_another_refused(
    ids: GroundIds,
    st: CliffState,
    others: Seq<LedgeHolder>,
    i: int,
)
    requires
        0 <= i < others.len(),
        others[i].entry_id != st.entry_id,
        others[i].ledge_id == st.cliff_id as i32,
        !st.lasso_check,
    ensures
        ledge_grab_refused(ids, st, others),
{
    assert(ledge_held_by_other(st, others));
}

/// Law: the order in which the battle objects are listed does not change the decision:
/// listing one group before the other gives the same answer as the other way round.
pub proof fn lemma_ledge_decision_ignores_order(
    ids: GroundIds,
    st: CliffState,
    a: Seq<LedgeHolder>,
    b: Seq<LedgeHolder>,
)
    ensures
        ledge_grab_refused(ids, st, a + b) == ledge_grab_refused(ids, st, b + a),
{
    if ledge_held_by_other(st, a + b) {
        let i = choose|i: int| 0 <= i < (a + b).len() && #[trigger] (a + b)[i].entry_id != st.entry_id
            && (a + b)[i].ledge_id == st.cliff_id as i32;
        let j = if i < a.len() { i + b.len() } else { i - a.len() };
        assert((b + a)[j] == (a + b)[i]);
        assert(ledge_held_by_other(st, b + a));
    }
    if ledge_held_by_other(st, b + a) {
        let i = choose|i: int| 0 <= i < (b + a).len() && #[trigger] (b + a)[i].entry_id != st.entry_id
            && (b + a)[i].ledge_id == st.cliff_id as i32;
        let j = if i < b.len() { i + a.len() } else { i - b.len() };
        assert((a + b)[j] == (b + a)[i]);
        assert(ledge_held_by_other(st, a + b));
    }
}

/// Law: an object that holds no ledge, or the grabbing fighter itself, listed first or
/// anywhere else, does not change the decision.
pub proof fn lemma_ledge_free_object_irrelevant(
    ids: GroundIds,
    st: CliffState,
    x: LedgeHolder,
    others: Seq<LedgeHolder>,
)
    requires
        x.entry_id == st.entry_id || x.ledge_id != st.cliff_id as i32,
    ensures
        ledge_grab_refused(ids, st, seq![x] + others) == ledge_grab_refused(ids, st, others),
        ledge_grab_refused(ids, st, others + seq![x]) == ledge_grab_refused(ids, st, others),
{
    let front = seq![x] + others;
    let back = others + seq![x];
    if ledge_held_by_other(st, front) {
        let i = choose|i: int| 0 <= i < front.len() && #[trigger] front[i].entry_id != st.entry_id
            && front[i].ledge_id == st.cliff_id as i32;
        assert(i != 0);
        assert(others[i - 1] == front[i]);
        assert(ledge_held_by_other(st, others));
    }
    if ledge_held_by_other(st, others) {
        let i = choose|i: int| 0 <= i < others.len() && #[trigger] others[i].entry_id != st.entry_id
            && others[i].ledge_id == st.cliff_id as i32;
        assert(front[i + 1] == others[i]);
        assert(back[i] == others[i]);
        assert(ledge_held_by_other(st, front));
        assert(ledge_held_by_other(st, back));
    }
    if ledge_held_by_other(st, back) {
        let i = choose|i: int| 0 <= i < back.len() && #[trigger] back[i].entry_id != st.entry_id
            && back[i].ledge_id == st.cliff_id as i32;
        assert(i != others.len());
        assert(others[i] == back[i]);
        assert(ledge_held_by_other(st, others));
    }
}

/// Law: a fighter rising through a ledge in the air is refused when its status is none of the
/// four special statuses nor an air dodge, its move is not logged as a special, it is not an
/// Ice Climber, and its tether ledge check is off.
pub proof fn lemma_rising_grab_outside_specials_refused(
    ids: GroundIds,
    st: CliffState,
    others: Seq<LedgeHolder>,
)
    requires
        st.is_fighter,
        st.situation == ids.situation.air,
        st.rising,
        !st.lasso_check,
        st.status_kind != ids.status.special_n,
        st.status_kind != ids.status.special_s,
        st.status_kind != ids.status.special_hi,
        st.status_kind != ids.status.special_lw,
        st.status_kind != ids.status.escape_air,
        st.log_attack_kind != ids.log_attack_special_n,
        st.log_attack_kind != ids.log_attack_special_s,
        st.log_attack_kind != ids.log_attack_special_hi,
        st.log_attack_kind != ids.log_attack_special_lw,
        st.fighter_kind != ids.kind.ice_climber,
        st.fighter_kind != ids.kind.popo,
        st.fighter_kind != ids.kind.nana,
    ensures
        ledge_grab_refused(ids, st, others),
{
}

/// Law: a fighter in the first frames after running or walking off an edge is refused.
pub proof fn lemma_run_off_edge_refused(ids: GroundIds, st: CliffState, others: Seq<LedgeHolder>)
    requires
        st.is_fighter,
        st.motion_kind == ids.motion_run_fall_l || st.motion_kind == ids.motion_run_fall_r
            || st.motion_kind == ids.motion_walk_fall_l || st.motion_kind == ids.motion_walk_fall_r,
    ensures
        ledge_grab_refused(ids, st, others),
{
}

/// Law: a free ledge (no other fighter holds it) goes on to the game's own check when the
/// fighter is not rising in the air and has not just run or walked off an edge.
pub proof fn lemma_free_ledge_not_refused(ids: GroundIds, st: CliffState, others: Seq<LedgeHolder>)
    requires
        forall|i: int| 0 <= i < others.len() ==> #[trigger] others[i].entry_id == st.entry_id
            || others[i].ledge_id != st.cliff_id as i32,
        !st.rising || st.situation != ids.situation.air,
        st.motion_kind != ids.motion_run_fall_l,
        st.motion_kind != ids.motion_run_fall_r,
        st.motion_kind != ids.motion_walk_fall_l,
        st.motion_kind != ids.motion_walk_fall_r,
    ensures
        !ledge_grab_refused(ids, st, others),
{
}

/// Law: a rising fighter in a special move (one of the four special statuses, or any status
/// of a move logged as a special) or an air dodge may grab a free ledge.
pub proof fn lemma_rising_special_not_refused(ids: GroundIds, st: CliffState, others: Seq<LedgeHolder>)
    requires
        forall|i: int| 0 <= i < others.len() ==> #[trigger] others[i].entry_id == st.entry_id
            || others[i].ledge_id != st.cliff_id as i32,
        st.status_kind == ids.status.special_n || st.status_kind == ids.status.special_s
            || st.status_kind == ids.status.special_hi || st.status_kind == ids.status.special_lw
            || st.status_kind == ids.status.escape_air
            || st.log_attack_kind == ids.log_attack_special_n
            || st.log_attack_kind == ids.log_attack_special_s
            || st.log_attack_kind == ids.log_attack_special_hi
            || st.log_attack_kind == ids.log_attack_special_lw,
        st.motion_kind != ids.motion_run_fall_l,
        st.motion_kind != ids.motion_run_fall_r,
        st.motion_kind != ids.motion_walk_fall_l,
        st.motion_kind != ids.motion_walk_fall_r,
    ensures
        !ledge_grab_refused(ids, st, others),
{
}

/// Law: a tether move with its ledge check on (the tether grabs, Zero Suit Samus's and
/// Isabelle's side specials, the listed up specials and Simon's aerial) may grab a ledge
/// whoever holds it and however the fighter moves, unless it has just run off an edge.
pub proof fn lemma_tether_grab_not_refused(ids: GroundIds, st: CliffState, others: Seq<LedgeHolder>)
    requires
        st.is_fighter,
        st.lasso_check,
        ((st.fighter_kind == ids.kind.lucas || st.fighter_kind == ids.kind.younglink
            || st.fighter_kind == ids.kind.toonlink || st.fighter_kind == ids.kind.samus
            || st.fighter_kind == ids.kind.samusd || st.fighter_kind == ids.kind.szerosuit)
            && (st.status_kind == ids.status.air_lasso || st.status_kind == ids.status.air_lasso_reach
            || st.status_kind == ids.status.air_lasso_hang || st.status_kind == ids.status.air_lasso_rewind))
        || (st.fighter_kind == ids.kind.szerosuit && st.status_kind == ids.status.special_s)
        || (st.fighter_kind == ids.kind.shizue && st.status_kind == ids.status.special_s)
        || (st.fighter_kind == ids.kind.tantan && (st.status_kind == ids.status.special_hi
            || st.status_kind == ids.uniq.tantan_special_hi_air))
        || (st.fighter_kind == ids.kind.master && st.status_kind == ids.status.special_hi)
        || (st.fighter_kind == ids.kind.jack && st.status_kind == ids.status.special_hi)
        || (st.fighter_kind == ids.kind.pfushigisou && st.status_kind == ids.status.special_hi)
        || (st.fighter_kind == ids.kind.simon && st.status_kind == ids.status.attack_air),
        st.motion_kind != ids.motion_run_fall_l,
        st.motion_kind != ids.motion_run_fall_r,
        st.motion_kind != ids.motion_walk_fall_l,
        st.motion_kind != ids.motion_walk_fall_r,
    ensures
        !ledge_grab_refused(ids, st, others),
{
}


/// Law: a grounded fighter in any of the common statuses landing, dash turn, dash, special
/// fall landing, damage, footstool damage (both), light landing damage, sing, sleep (start,
/// loop, end), down damage and shield-break damage is corrected with the "ground" kind.
pub proof fn lemma_common_statuses_corrected_to_ground(ids: GroundIds, st: GroundState, requested: i32)
    requires
        st.is_fighter,
        st.situation == ids.situation.ground,
        st.status_kind == ids.status.landing || st.status_kind == ids.status.turn_dash
        || st.status_kind == ids.status.dash
        || st.status_kind == ids.status.landing_fall_special
        || st.status_kind == ids.status.damage || st.status_kind == ids.status.tread_damage
        || st.status_kind == ids.status.tread_damage_rv
        || st.status_kind == ids.status.landing_damage_light
        || st.status_kind == ids.status.damage_song
        || st.status_kind == ids.status.damage_sleep_start
        || st.status_kind == ids.status.damage_sleep
        || st.status_kind == ids.status.damage_sleep_end
        || st.status_kind == ids.status.down_damage
        || st.status_kind == ids.status.saving_damage,
    ensures
        corrected_kind(ids, st, requested) == ids.correct_ground,
{
}

/// Whether the fighter-specific moves that the ground correction treats as "ground" include
/// this one, written out move by move.
pub open spec fn listed_slipoff_move(ids: GroundIds, k: i32, s: i32, waza: i32) -> bool {
    let u = ids.uniq;
    ||| ((k == ids.kind.pikachu || k == ids.kind.pichu) && (s == u.pikachu_special_s_weak || s == u.pikachu_special_s_attack || s == u.pikachu_special_s_end))
    ||| (k == ids.kind.captain && s == u.captain_special_lw_end)
    ||| (k == ids.kind.ganon && s == u.ganon_special_lw_end)
    ||| (k == ids.kind.miiswordsman && s == u.miiswordsman_special_lw3_end)
    ||| (k == ids.kind.koopa && s == u.koopa_special_hi_g)
    ||| (k == ids.kind.donkey && s == ids.status.special_hi)
    ||| (k == ids.kind.gaogaen && s == ids.status.special_n)
    ||| ((k == ids.kind.kirby) && (s == u.kirby_gaogaen_special_n || s == u.kirby_luigi_special_n))
    ||| (k == ids.kind.luigi && s == ids.status.special_n)
    ||| (k == ids.kind.peach && s == u.peach_special_s_away_end)
    ||| (k == ids.kind.daisy && s == u.peach_special_s_away_end)
    ||| (k == ids.kind.edge && s == u.edge_special_hi_rush)
    ||| (k == ids.kind.yoshi && s == ids.status.special_hi)
    ||| (k == ids.kind.pacman && s == u.pacman_special_s_return)
    ||| (k == ids.kind.trail && s == u.trail_special_s_end)
    ||| (k == ids.kind.plizardon && s == u.plizardon_special_s_end)
    ||| ((k == ids.kind.dedede) && (s == ids.status.special_s || s == u.dedede_special_hi_failure || s == u.dedede_special_lw_attack))
    ||| ((k == ids.kind.fox) && (s == u.fox_special_lw_loop || s == u.fox_special_lw_hit || s == u.fox_special_lw_end))
    ||| ((k == ids.kind.wolf) && (s == u.wolf_special_lw_loop || s == u.wolf_special_lw_hit || s == u.wolf_special_lw_end))
    ||| ((k == ids.kind.ness) && (s == ids.status.special_hi || s == u.ness_special_hi_reflect || s == u.ness_special_hi_hold || s == u.ness_special_hi_end))
    ||| ((k == ids.kind.lucas) && (s == ids.status.special_hi || s == u.lucas_special_hi_reflect || s == u.lucas_special_hi_hold || s == u.lucas_special_hi_end))
    ||| (k == ids.kind.miiswordsman && waza == ids.waza_customize_to_special_lw_3
            && s == ids.status.special_lw)
}

/// Law: a grounded fighter in one of the listed fighter-specific moves is corrected with the
/// "ground" kind.
pub proof fn lemma_listed_moves_corrected_to_ground(ids: GroundIds, st: GroundState, requested: i32)
    requires
        st.is_fighter,
        st.situation == ids.situation.ground,
        listed_slipoff_move(ids, st.fighter_kind, st.status_kind, st.waza_customize),
    ensures
        corrected_kind(ids, st, requested) == ids.correct_ground,
{
}

/// Law: a fighter in the air, or any object that is not a fighter, keeps the requested kind.
pub proof fn lemma_airborne_keeps_requested_kind(ids: GroundIds, st: GroundState, requested: i32)
    requires
        !st.is_fighter || st.situation != ids.situation.ground,
    ensures
        corrected_kind(ids, st, requested) == requested,
{
}

/// Law: the ground correction is changed only for the listed statuses and moves: a grounded
/// fighter of a kind without a listed move, in none of the common statuses, keeps the
/// requested kind, and so does a listed move that another kind of fighter makes.
pub proof fn lemma_unlisted_keeps_requested_kind(ids: GroundIds, st: GroundState, requested: i32)
    requires
        st.status_kind != ids.status.landing,
        st.status_kind != ids.status.turn_dash,
        st.status_kind != ids.status.dash,
        st.status_kind != ids.status.landing_fall_special,
        st.status_kind != ids.status.damage,
        st.status_kind != ids.status.tread_damage,
        st.status_kind != ids.status.tread_damage_rv,
        st.status_kind != ids.status.landing_damage_light,
        st.status_kind != ids.status.damage_song,
        st.status_kind != ids.status.damage_sleep_start,
        st.status_kind != ids.status.damage_sleep,
        st.status_kind != ids.status.damage_sleep_end,
        st.status_kind != ids.status.down_damage,
        st.status_kind != ids.status.saving_damage,
        !listed_slipoff_move(ids, st.fighter_kind, st.status_kind, st.waza_customize),
    ensures
        corrected_kind(ids, st, requested) == requested,
{
}

/// Law: a grounded fighter in the taunt or any of the common statuses standing, dash, turn,
/// dash turn, crouch (all five), landing (all five), light landing damage, shield damage,
/// heavy item pickup, damage, tether landing, footstool damage (both), sing, sleep (start,
/// loop, end), down damage and shield-break damage has its settings forced to "ground".
pub proof fn lemma_common_statuses_forced_to_ground(ids: GroundIds, st: GroundState)
    requires
        st.is_fighter,
        st.situation == ids.situation.ground,
        st.status_kind == ids.status.appeal || st.status_kind == ids.status.wait
        || st.status_kind == ids.status.dash || st.status_kind == ids.status.turn
        || st.status_kind == ids.status.turn_dash || st.status_kind == ids.status.squat
        || st.status_kind == ids.status.squat_wait || st.status_kind == ids.status.squat_f
        || st.status_kind == ids.status.squat_b || st.status_kind == ids.status.squat_rv
        || st.status_kind == ids.status.landing || st.status_kind == ids.status.landing_light
        || st.status_kind == ids.status.landing_attack_air
        || st.status_kind == ids.status.landing_fall_special
        || st.status_kind == ids.status.landing_damage_light
        || st.status_kind == ids.status.guard_damage
        || st.status_kind == ids.status.item_heavy_pickup || st.status_kind == ids.status.damage
        || st.status_kind == ids.status.air_lasso_landing
        || st.status_kind == ids.status.tread_damage
        || st.status_kind == ids.status.tread_damage_rv
        || st.status_kind == ids.status.damage_song
        || st.status_kind == ids.status.damage_sleep_start
        || st.status_kind == ids.status.damage_sleep
        || st.status_kind == ids.status.damage_sleep_end
        || st.status_kind == ids.status.down_damage
        || st.status_kind == ids.status.saving_damage,
    ensures
        settings_force_ground(ids, st),
{
}

/// Whether this fighter-specific move has its settings forced to "ground", written out move
/// by move (Sephiroth's landing after the up special counts unless the charged rush preceded it).
pub open spec fn listed_forced_move(ids: GroundIds, k: i32, s: i32, prev: i32) -> bool {
    let u = ids.uniq;
    ||| (k == ids.kind.edge && s == u.edge_special_hi_landing && prev != u.edge_special_hi_charged_rush)
    ||| ((k == ids.kind.kamui) && (s == u.kamui_special_s_wall_attack_b || s == u.kamui_special_s_wall_attack_f || s == u.kamui_special_s_wall_attack_b_landing || s == u.kamui_special_s_wall_attack_f_landing))
    ||| ((k == ids.kind.miifighter) && (s == u.miifighter_special_lw2_start || s == u.miifighter_special_lw2_kick || s == u.miifighter_special_lw2_landing || s == u.miifighter_special_lw2_kick_landing || s == u.miifighter_special_s2_landing || s == u.miifighter_special_lw1_landing))
    ||| ((k == ids.kind.miiswordsman) && (s == u.miiswordsman_special_hi1_end || s == u.miiswordsman_special_s2_end))
    ||| ((k == ids.kind.szerosuit) && (s == u.szerosuit_special_lw_flip || s == u.szerosuit_special_lw_kick || s == u.szerosuit_special_lw_landing || s == u.szerosuit_special_lw_kick_landing))
    ||| ((k == ids.kind.bayonetta) && (s == u.bayonetta_special_air_s_d || s == u.bayonetta_special_air_s_d_landing))
    ||| ((k == ids.kind.dolly) && (s == u.dolly_special_lw_attack || s == u.dolly_special_lw_landing || s == u.dolly_special_b_landing || s == u.dolly_special_hi_landing))
    ||| (k == ids.kind.koopajr && s == u.koopajr_special_hi_landing)
    ||| ((k == ids.kind.sheik) && (s == u.sheik_special_lw_attack || s == u.sheik_special_lw_landing))
    ||| (k == ids.kind.luigi && s == u.luigi_special_hi_landing_fall)
    ||| ((k == ids.kind.pit || k == ids.kind.pitb) && (s == u.pit_special_s_landing))
    ||| ((k == ids.kind.simon || k == ids.kind.richter) && (s == u.simon_attack_lw32_landing))
    ||| (k == ids.kind.demon && s == u.demon_special_s_landing)
    ||| ((k == ids.kind.ryu || k == ids.kind.ken) && (s == u.ryu_special_hi_landing))
    ||| (k == ids.kind.packun && s == u.packun_special_hi_landing)
    ||| (k == ids.kind.krool && s == u.krool_special_hi_landing)
    ||| (k == ids.kind.pikmin && s == u.pikmin_special_hi_landing)
    ||| (k == ids.kind.falco && s == u.falco_special_s_fall_landing)
    ||| (k == ids.kind.murabito && s == u.murabito_special_hi_landing)
    ||| (k == ids.kind.ness && s == u.ness_special_hi_end)
    ||| (k == ids.kind.lucas && s == u.lucas_special_hi_end)
}

/// Law: a grounded fighter in one of the listed fighter-specific moves has its settings
/// forced to "ground".
pub proof fn lemma_listed_moves_forced_to_ground(ids: GroundIds, st: GroundState)
    requires
        st.is_fighter,
        st.situation == ids.situation.ground,
        listed_forced_move(ids, st.fighter_kind, st.status_kind, st.prev_status_kind),
    ensures
        settings_force_ground(ids, st),
{
}

/// Law: the settings keep the given correct kind for a fighter in the air and for any object
/// that is not a fighter.
pub proof fn lemma_airborne_settings_not_forced(ids: GroundIds, st: GroundState)
    requires
        !st.is_fighter || st.situation != ids.situation.ground,
    ensures
        !settings_force_ground(ids, st),
{
}

/// Law: the settings are forced only for the listed statuses and moves.
pub proof fn lemma_unlisted_settings_not_forced(ids: GroundIds, st: GroundState)
    requires
        st.status_kind != ids.status.appeal,
        st.status_kind != ids.status.wait,
        st.status_kind != ids.status.dash,
        st.status_kind != ids.status.turn,
        st.status_kind != ids.status.turn_dash,
        st.status_kind != ids.status.squat,
        st.status_kind != ids.status.squat_wait,
        st.status_kind != ids.status.squat_f,
        st.status_kind != ids.status.squat_b,
        st.status_kind != ids.status.squat_rv,
        st.status_kind != ids.status.landing,
        st.status_kind != ids.status.landing_light,
        st.status_kind != ids.status.landing_attack_air,
        st.status_kind != ids.status.landing_fall_special,
        st.status_kind != ids.status.landing_damage_light,
        st.status_kind != ids.status.guard_damage,
        st.status_kind != ids.status.item_heavy_pickup,
        st.status_kind != ids.status.damage,
        st.status_kind != ids.status.air_lasso_landing,
        st.status_kind != ids.status.tread_damage,
        st.status_kind != ids.status.tread_damage_rv,
        st.status_kind != ids.status.damage_song,
        st.status_kind != ids.status.damage_sleep_start,
        st.status_kind != ids.status.damage_sleep,
        st.status_kind != ids.status.damage_sleep_end,
        st.status_kind != ids.status.down_damage,
        st.status_kind != ids.status.saving_damage,
        !listed_forced_move(ids, st.fighter_kind, st.status_kind, st.prev_status_kind),
    ensures
        !settings_force_ground(ids, st),
{
}


/// Law: the tether exemption holds exactly for a fighter with its tether ledge check on, in a
/// tether grab (Lucas, Young Link, Toon Link, Samus, Dark Samus, Zero Suit Samus), in Zero
/// Suit Samus's or Isabelle's side special, in Min Min's, Byleth's, Joker's or Ivysaur's up
/// special, or in Simon's aerial.
pub proof fn lemma_tether_exemption_exact(ids: GroundIds, st: CliffState)
    ensures
        tether_exempt(ids, st) <==> st.is_fighter && st.lasso_check && (
            ((st.fighter_kind == ids.kind.lucas || st.fighter_kind == ids.kind.younglink
                || st.fighter_kind == ids.kind.toonlink || st.fighter_kind == ids.kind.samus
                || st.fighter_kind == ids.kind.samusd || st.fighter_kind == ids.kind.szerosuit)
                && (st.status_kind == ids.status.air_lasso || st.status_kind == ids.status.air_lasso_reach
                || st.status_kind == ids.status.air_lasso_hang || st.status_kind == ids.status.air_lasso_rewind))
            || (st.fighter_kind == ids.kind.szerosuit && st.status_kind == ids.status.special_s)
            || (st.fighter_kind == ids.kind.shizue && st.status_kind == ids.status.special_s)
            || (st.fighter_kind == ids.kind.tantan && (st.status_kind == ids.status.special_hi
                || st.status_kind == ids.uniq.tantan_special_hi_air))
            || (st.fighter_kind == ids.kind.master && st.status_kind == ids.status.special_hi)
            || (st.fighter_kind == ids.kind.jack && st.status_kind == ids.status.special_hi)
            || (st.fighter_kind == ids.kind.pfushigisou && st.status_kind == ids.status.special_hi)
            || (st.fighter_kind == ids.kind.simon && st.status_kind == ids.status.attack_air)),
{
}

/// Law: the game's own rising-ledge-grab rule is kept exactly for air dodges and for the
/// Ice Climbers' recovery statuses.
pub proof fn lemma_vanilla_rule_exact(ids: GroundIds, kind: i32, status: i32)
    ensures
        vanilla_ledge_rule(ids, kind, status) <==> status == ids.status.escape_air || (
            (kind == ids.kind.ice_climber || kind == ids.kind.popo || kind == ids.kind.nana)
            && (status == ids.uniq.popo_special_hi_jump_pre || status == ids.uniq.popo_special_hi_partner
            || status == ids.uniq.popo_special_hi_jump_partner || status == ids.uniq.popo_special_hi_jump
            || status == ids.uniq.popo_special_hi_cliff_comp_partner
            || status == ids.uniq.popo_special_hi_cliff_pull_partner
            || status == ids.uniq.popo_special_hi_cliff_comp)),
{
}

} // verus!
