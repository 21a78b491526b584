use fighters::ground::{
    can_entry_cliff, check_fighter_edge_slipoffs, correct_hook, init_settings_edges, run_vanilla_check,
    CliffState, FighterKinds, GroundIds, GroundState, LedgeHolder, UniqueStatuses,
};
use fighters::ids::{Situations, StatusKinds};

fn next(n: &mut i32) -> i32 {
    *n += 1;
    *n
}

fn situations(n: &mut i32) -> Situations {
    Situations {
        ground: next(n),
        air: next(n),
        cliff: next(n),
    }
}

fn status_kinds(n: &mut i32) -> StatusKinds {
    StatusKinds {
        appeal: next(n),
        wait: next(n),
        dash: next(n),
        turn: next(n),
        turn_dash: next(n),
        squat: next(n),
        squat_wait: next(n),
        squat_f: next(n),
        squat_b: next(n),
        squat_rv: next(n),
        landing: next(n),
        landing_light: next(n),
        landing_attack_air: next(n),
        landing_fall_special: next(n),
        landing_damage_light: next(n),
        guard: next(n),
        guard_damage: next(n),
        item_heavy_pickup: next(n),
        damage: next(n),
        damage_air: next(n),
        damage_fall: next(n),
        damage_fly: next(n),
        damage_fly_roll: next(n),
        damage_fly_meteor: next(n),
        damage_fly_reflect_lr: next(n),
        damage_fly_reflect_u: next(n),
        damage_fly_reflect_d: next(n),
        damage_song: next(n),
        damage_sleep_start: next(n),
        damage_sleep: next(n),
        damage_sleep_end: next(n),
        down_damage: next(n),
        saving_damage: next(n),
        air_lasso: next(n),
        air_lasso_reach: next(n),
        air_lasso_hang: next(n),
        air_lasso_rewind: next(n),
        air_lasso_landing: next(n),
        tread_damage: next(n),
        tread_damage_rv: next(n),
        escape: next(n),
        escape_f: next(n),
        escape_b: next(n),
        escape_air: next(n),
        escape_air_slide: next(n),
        catch: next(n),
        catch_dash: next(n),
        catch_turn: next(n),
        catch_pull: next(n),
        catch_wait: next(n),
        catch_attack: next(n),
        catch_cut: next(n),
        throw: next(n),
        thrown: next(n),
        shouldered_donkey: next(n),
        catched_ridley: next(n),
        catched_reflet: next(n),
        catched_ganon: next(n),
        catched_air_ganon: next(n),
        catched_cut_ganon: next(n),
        attack: next(n),
        attack_air: next(n),
        attack_s3: next(n),
        attack_hi3: next(n),
        attack_lw3: next(n),
        attack_s4_start: next(n),
        attack_hi4_start: next(n),
        attack_lw4_start: next(n),
        special_n: next(n),
        special_s: next(n),
        special_hi: next(n),
        special_lw: next(n),
        fall: next(n),
        fall_special: next(n),
        rebirth: next(n),
        dead: next(n),
        win: next(n),
        lose: next(n),
        entry: next(n),
    }
}

fn fighter_kinds(n: &mut i32) -> FighterKinds {
    FighterKinds {
        bayonetta: next(n),
        captain: next(n),
        daisy: next(n),
        dedede: next(n),
        demon: next(n),
        dolly: next(n),
        donkey: next(n),
        edge: next(n),
        falco: next(n),
        fox: next(n),
        ganon: next(n),
        gaogaen: next(n),
        ice_climber: next(n),
        jack: next(n),
        kamui: next(n),
        ken: next(n),
        kirby: next(n),
        koopa: next(n),
        koopajr: next(n),
        krool: next(n),
        lucas: next(n),
        luigi: next(n),
        master: next(n),
        miifighter: next(n),
        miiswordsman: next(n),
        murabito: next(n),
        nana: next(n),
        ness: next(n),
        packun: next(n),
        pacman: next(n),
        peach: next(n),
        pfushigisou: next(n),
        pichu: next(n),
        pikachu: next(n),
        pikmin: next(n),
        pit: next(n),
        pitb: next(n),
        plizardon: next(n),
        popo: next(n),
        richter: next(n),
        ryu: next(n),
        samus: next(n),
        samusd: next(n),
        sheik: next(n),
        shizue: next(n),
        simon: next(n),
        szerosuit: next(n),
        tantan: next(n),
        toonlink: next(n),
        trail: next(n),
        wolf: next(n),
        yoshi: next(n),
        younglink: next(n),
    }
}

fn unique_statuses(n: &mut i32) -> UniqueStatuses {
    UniqueStatuses {
        bayonetta_special_air_s_d: next(n),
        bayonetta_special_air_s_d_landing: next(n),
        captain_special_lw_end: next(n),
        dedede_special_hi_failure: next(n),
        dedede_special_lw_attack: next(n),
        demon_special_s_landing: next(n),
        dolly_special_lw_attack: next(n),
        dolly_special_lw_landing: next(n),
        dolly_special_b_landing: next(n),
        dolly_special_hi_landing: next(n),
        edge_special_hi_landing: next(n),
        edge_special_hi_charged_rush: next(n),
        edge_special_hi_rush: next(n),
        falco_special_s_fall_landing: next(n),
        fox_special_lw_loop: next(n),
        fox_special_lw_hit: next(n),
        fox_special_lw_end: next(n),
        ganon_special_lw_end: next(n),
        kamui_special_s_wall_attack_b: next(n),
        kamui_special_s_wall_attack_f: next(n),
        kamui_special_s_wall_attack_b_landing: next(n),
        kamui_special_s_wall_attack_f_landing: next(n),
        kirby_gaogaen_special_n: next(n),
        kirby_luigi_special_n: next(n),
        koopa_special_hi_g: next(n),
        koopajr_special_hi_landing: next(n),
        krool_special_hi_landing: next(n),
        lucas_special_hi_reflect: next(n),
        lucas_special_hi_hold: next(n),
        lucas_special_hi_end: next(n),
        luigi_special_hi_landing_fall: next(n),
        miifighter_special_lw2_start: next(n),
        miifighter_special_lw2_kick: next(n),
        miifighter_special_lw2_landing: next(n),
        miifighter_special_lw2_kick_landing: next(n),
        miifighter_special_s2_landing: next(n),
        miifighter_special_lw1_landing: next(n),
        miiswordsman_special_hi1_end: next(n),
        miiswordsman_special_s2_end: next(n),
        miiswordsman_special_lw3_end: next(n),
        murabito_special_hi_landing: next(n),
        ness_special_hi_reflect: next(n),
        ness_special_hi_hold: next(n),
        ness_special_hi_end: next(n),
        packun_special_hi_landing: next(n),
        pacman_special_s_return: next(n),
        peach_special_s_away_end: next(n),
        pikachu_special_s_weak: next(n),
        pikachu_special_s_attack: next(n),
        pikachu_special_s_end: next(n),
        pikmin_special_hi_landing: next(n),
        pit_special_s_landing: next(n),
        plizardon_special_s_end: next(n),
        popo_special_hi_jump_pre: next(n),
        popo_special_hi_partner: next(n),
        popo_special_hi_jump_partner: next(n),
        popo_special_hi_jump: next(n),
        popo_special_hi_cliff_comp_partner: next(n),
        popo_special_hi_cliff_pull_partner: next(n),
        popo_special_hi_cliff_comp: next(n),
        ryu_special_hi_landing: next(n),
        sheik_special_lw_attack: next(n),
        sheik_special_lw_landing: next(n),
        simon_attack_lw32_landing: next(n),
        szerosuit_special_lw_flip: next(n),
        szerosuit_special_lw_kick: next(n),
        szerosuit_special_lw_landing: next(n),
        szerosuit_special_lw_kick_landing: next(n),
        tantan_special_hi_air: next(n),
        trail_special_s_end: next(n),
        wolf_special_lw_loop: next(n),
        wolf_special_lw_hit: next(n),
        wolf_special_lw_end: next(n),
    }
}

fn ids_from(n: &mut i32) -> GroundIds {
    GroundIds {
        situation: situations(n),
        status: status_kinds(n),
        kind: fighter_kinds(n),
        uniq: unique_statuses(n),
        correct_ground: next(n),
        correct_air: next(n),
        waza_customize_to_special_lw_3: next(n),
        motion_run_fall_l: next(n) as u64,
        motion_run_fall_r: next(n) as u64,
        motion_walk_fall_l: next(n) as u64,
        motion_walk_fall_r: next(n) as u64,
        log_attack_special_n: next(n),
        log_attack_special_s: next(n),
        log_attack_special_hi: next(n),
        log_attack_special_lw: next(n),
    }
}

fn ids() -> GroundIds {
    let mut n = 0;
    ids_from(&mut n)
}

fn grounded(ids: &GroundIds, kind: i32, status: i32) -> GroundState {
    GroundState {
        is_fighter: true,
        situation: ids.situation.ground,
        fighter_kind: kind,
        status_kind: status,
        prev_status_kind: 0,
        waza_customize: 0,
    }
}

fn cliff(ids: &GroundIds) -> CliffState {
    CliffState {
        is_fighter: true,
        situation: ids.situation.air,
        status_kind: ids.status.fall,
        fighter_kind: ids.kind.fox,
        rising: false,
        lasso_check: false,
        motion_kind: 0,
        cliff_id: 7,
        entry_id: 1,
        log_attack_kind: 0,
    }
}


#[test]
fn edges_keep_requested_kind_for_non_fighters_and_airborne() {
    let ids = ids();
    let mut st = grounded(&ids, ids.kind.fox, ids.status.wait);
    st.is_fighter = false;
    assert_eq!(init_settings_edges(&ids, &st, 99), 99);
    let mut st = grounded(&ids, ids.kind.fox, ids.status.wait);
    st.situation = ids.situation.air;
    assert_eq!(init_settings_edges(&ids, &st, 99), 99);
}

#[test]
fn edges_force_ground_for_common_statuses() {
    let ids = ids();
    let ground = ids.correct_ground as u32;
    assert_eq!(init_settings_edges(&ids, &grounded(&ids, ids.kind.fox, ids.status.appeal), 99), ground);
    assert_eq!(init_settings_edges(&ids, &grounded(&ids, ids.kind.fox, ids.status.wait), 99), ground);
    assert_eq!(init_settings_edges(&ids, &grounded(&ids, ids.kind.fox, ids.status.saving_damage), 99), ground);
    assert_eq!(init_settings_edges(&ids, &grounded(&ids, ids.kind.fox, ids.status.attack), 99), 99);
}

#[test]
fn edges_sephiroth_landing_depends_on_previous_status() {
    let ids = ids();
    let ground = ids.correct_ground as u32;
    let mut st = grounded(&ids, ids.kind.edge, ids.uniq.edge_special_hi_landing);
    assert_eq!(init_settings_edges(&ids, &st, 99), ground);
    st.prev_status_kind = ids.uniq.edge_special_hi_charged_rush;
    assert_eq!(init_settings_edges(&ids, &st, 99), 99);
}

#[test]
fn edges_fighter_specific_rules() {
    let ids = ids();
    let ground = ids.correct_ground as u32;
    assert_eq!(init_settings_edges(&ids, &grounded(&ids, ids.kind.kamui, ids.uniq.kamui_special_s_wall_attack_f_landing), 5), ground);
    assert_eq!(init_settings_edges(&ids, &grounded(&ids, ids.kind.richter, ids.uniq.simon_attack_lw32_landing), 5), ground);
    assert_eq!(init_settings_edges(&ids, &grounded(&ids, ids.kind.ken, ids.uniq.ryu_special_hi_landing), 5), ground);
    assert_eq!(init_settings_edges(&ids, &grounded(&ids, ids.kind.lucas, ids.uniq.lucas_special_hi_end), 5), ground);
    // the status of another fighter does not count
    assert_eq!(init_settings_edges(&ids, &grounded(&ids, ids.kind.fox, ids.uniq.lucas_special_hi_end), 5), 5);
}

#[test]
fn slipoff_moves() {
    let ids = ids();
    assert!(check_fighter_edge_slipoffs(&ids, ids.kind.pichu, ids.uniq.pikachu_special_s_attack, 0));
    assert!(check_fighter_edge_slipoffs(&ids, ids.kind.daisy, ids.uniq.peach_special_s_away_end, 0));
    assert!(check_fighter_edge_slipoffs(&ids, ids.kind.ness, ids.status.special_hi, 0));
    assert!(!check_fighter_edge_slipoffs(&ids, ids.kind.fox, ids.status.special_hi, 0));
    // Mii Swordfighter's down special only with the third customization
    assert!(!check_fighter_edge_slipoffs(&ids, ids.kind.miiswordsman, ids.status.special_lw, 0));
    assert!(check_fighter_edge_slipoffs(&ids, ids.kind.miiswordsman, ids.status.special_lw, ids.waza_customize_to_special_lw_3));
}

#[test]
fn correct_hook_chooses_kind() {
    let ids = ids();
    assert_eq!(correct_hook(&ids, &grounded(&ids, ids.kind.fox, ids.status.dash), 42), ids.correct_ground);
    assert_eq!(correct_hook(&ids, &grounded(&ids, ids.kind.fox, ids.uniq.fox_special_lw_hit), 42), ids.correct_ground);
    assert_eq!(correct_hook(&ids, &grounded(&ids, ids.kind.fox, ids.status.wait), 42), 42);
    let mut st = grounded(&ids, ids.kind.fox, ids.status.dash);
    st.situation = ids.situation.air;
    assert_eq!(correct_hook(&ids, &st, 42), 42);
}

#[test]
fn vanilla_ledge_rule() {
    let ids = ids();
    assert!(run_vanilla_check(&ids, ids.kind.fox, ids.status.escape_air));
    assert!(run_vanilla_check(&ids, ids.kind.nana, ids.uniq.popo_special_hi_jump));
    assert!(!run_vanilla_check(&ids, ids.kind.fox, ids.uniq.popo_special_hi_jump));
}

#[test]
fn ledge_held_by_another_fighter_is_refused() {
    let ids = ids();
    let st = cliff(&ids);
    let others = vec![LedgeHolder { entry_id: 2, ledge_id: 7 }];
    assert!(!can_entry_cliff(&ids, &st, &others));
    // the fighter's own entry does not count
    let mine = vec![LedgeHolder { entry_id: 1, ledge_id: 7 }];
    assert!(can_entry_cliff(&ids, &st, &mine));
    // another ledge does not count
    let elsewhere = vec![LedgeHolder { entry_id: 2, ledge_id: 8 }];
    assert!(can_entry_cliff(&ids, &st, &elsewhere));
}

#[test]
fn tether_with_check_may_grab_held_ledge() {
    let ids = ids();
    let mut st = cliff(&ids);
    st.fighter_kind = ids.kind.samus;
    st.status_kind = ids.status.air_lasso_hang;
    st.lasso_check = true;
    let others = vec![LedgeHolder { entry_id: 2, ledge_id: 7 }];
    assert!(can_entry_cliff(&ids, &st, &others));
    st.lasso_check = false;
    assert!(!can_entry_cliff(&ids, &st, &others));
}

#[test]
fn rising_fighter_cannot_grab_unless_vanilla() {
    let ids = ids();
    let mut st = cliff(&ids);
    st.rising = true;
    assert!(!can_entry_cliff(&ids, &st, &Vec::new()));
    st.status_kind = ids.status.escape_air;
    assert!(can_entry_cliff(&ids, &st, &Vec::new()));
}

#[test]
fn run_fall_cannot_grab() {
    let ids = ids();
    let mut st = cliff(&ids);
    st.motion_kind = ids.motion_walk_fall_r;
    assert!(!can_entry_cliff(&ids, &st, &Vec::new()));
    st.is_fighter = false;
    assert!(can_entry_cliff(&ids, &st, &Vec::new()));
}

#[test]
fn refusal_survives_more_objects() {
    let ids = ids();
    let st = cliff(&ids);
    let mut others = vec![LedgeHolder { entry_id: 3, ledge_id: 7 }];
    assert!(!can_entry_cliff(&ids, &st, &others));
    others.push(LedgeHolder { entry_id: 4, ledge_id: 9 });
    others.push(LedgeHolder { entry_id: 1, ledge_id: 7 });
    assert!(!can_entry_cliff(&ids, &st, &others));
}


#[test]
fn rising_special_is_left_to_the_game() {
    let ids = ids();
    let mut st = cliff(&ids);
    st.rising = true;
    st.fighter_kind = ids.kind.luigi;
    st.status_kind = ids.status.special_hi;
    assert!(can_entry_cliff(&ids, &st, &Vec::new()));
    st.status_kind = ids.status.attack_air;
    assert!(!can_entry_cliff(&ids, &st, &Vec::new()));
    // a held ledge is still refused during a special
    st.status_kind = ids.status.special_hi;
    let others = vec![LedgeHolder { entry_id: 2, ledge_id: 7 }];
    assert!(!can_entry_cliff(&ids, &st, &others));
}

#[test]
fn rising_fighter_specific_special_is_left_to_the_game() {
    let ids = ids();
    let mut st = cliff(&ids);
    st.rising = true;
    st.fighter_kind = ids.kind.edge;
    st.status_kind = ids.uniq.edge_special_hi_rush;
    st.log_attack_kind = ids.log_attack_special_hi;
    assert!(can_entry_cliff(&ids, &st, &Vec::new()));
    // the same status outside a special move is refused
    st.log_attack_kind = 0;
    assert!(!can_entry_cliff(&ids, &st, &Vec::new()));
}
