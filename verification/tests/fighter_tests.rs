use fighters::agent::{Agent, LineScript, Script, StatusLine, StatusScript};
use fighters::dedede;
use fighters::fastfall::dive_resets_gravity;
use fighters::ids::{Situations, StatusKinds};
use fighters::kirby::{self, KirbyIds, MagicEnd, MagicEndPlan, N2Check, N2FramePlan, N2MainPlan};
use fighters::lucario::{self, CommandFlags, HitCancelState, KineticPlan, LucarioIds, LwCheck, LwLoopStart, MeterSpend, StatusRequest};
use fighters::phantom::{self, BuildPlan, BuildState, PhantomHitPlan};
use fighters::ryu;
use fighters::sonic::{self, FreefallState, SonicIds};
use fighters::zelda::{self, AuraState, AuraStep, LandCancel, PhantomCancel, ZeldaIds, AURA_DISABLED, AURA_READY};

fn next(n: &mut i32) -> i32 {
    *n += 1;
    *n
}

fn situations(n: &mut i32) -> Situations {
    Situations {
        ground: next(n),
        air: next(n),
        cliff: next(n),
    }
}

fn status_kinds(n: &mut i32) -> StatusKinds {
    StatusKinds {
        appeal: next(n),
        wait: next(n),
        dash: next(n),
        turn: next(n),
        turn_dash: next(n),
        squat: next(n),
        squat_wait: next(n),
        squat_f: next(n),
        squat_b: next(n),
        squat_rv: next(n),
        landing: next(n),
        landing_light: next(n),
        landing_attack_air: next(n),
        landing_fall_special: next(n),
        landing_damage_light: next(n),
        guard: next(n),
        guard_damage: next(n),
        item_heavy_pickup: next(n),
        damage: next(n),
        damage_air: next(n),
        damage_fall: next(n),
        damage_fly: next(n),
        damage_fly_roll: next(n),
        damage_fly_meteor: next(n),
        damage_fly_reflect_lr: next(n),
        damage_fly_reflect_u: next(n),
        damage_fly_reflect_d: next(n),
        damage_song: next(n),
        damage_sleep_start: next(n),
        damage_sleep: next(n),
        damage_sleep_end: next(n),
        down_damage: next(n),
        saving_damage: next(n),
        air_lasso: next(n),
        air_lasso_reach: next(n),
        air_lasso_hang: next(n),
        air_lasso_rewind: next(n),
        air_lasso_landing: next(n),
        tread_damage: next(n),
        tread_damage_rv: next(n),
        escape: next(n),
        escape_f: next(n),
        escape_b: next(n),
        escape_air: next(n),
        escape_air_slide: next(n),
        catch: next(n),
        catch_dash: next(n),
        catch_turn: next(n),
        catch_pull: next(n),
        catch_wait: next(n),
        catch_attack: next(n),
        catch_cut: next(n),
        throw: next(n),
        thrown: next(n),
        shouldered_donkey: next(n),
        catched_ridley: next(n),
        catched_reflet: next(n),
        catched_ganon: next(n),
        catched_air_ganon: next(n),
        catched_cut_ganon: next(n),
        attack: next(n),
        attack_air: next(n),
        attack_s3: next(n),
        attack_hi3: next(n),
        attack_lw3: next(n),
        attack_s4_start: next(n),
        attack_hi4_start: next(n),
        attack_lw4_start: next(n),
        special_n: next(n),
        special_s: next(n),
        special_hi: next(n),
        special_lw: next(n),
        fall: next(n),
        fall_special: next(n),
        rebirth: next(n),
        dead: next(n),
        win: next(n),
        lose: next(n),
        entry: next(n),
    }
}

fn lucario_ids_from(n: &mut i32) -> LucarioIds {
    LucarioIds {
        situation: situations(n),
        status: status_kinds(n),
        correct_ground: next(n),
        correct_air: next(n),
        kinetic_motion: next(n),
        kinetic_motion_air: next(n),
    }
}

fn kirby_ids_from(n: &mut i32) -> KirbyIds {
    KirbyIds {
        situation: situations(n),
        status: status_kinds(n),
        trail_special_n1: next(n),
        trail_special_n1_shoot: next(n),
        trail_special_n1_end: next(n),
        trail_special_n2: next(n),
        trail_special_n3: next(n),
    }
}

fn sonic_ids_from(n: &mut i32) -> SonicIds {
    SonicIds {
        situation: situations(n),
        status: status_kinds(n),
        sonic_special_s_turn: next(n),
        sonic_spin_jump: next(n),
        sonic_special_n_hit: next(n),
        sonic_special_n_rebound: next(n),
        sonic_special_n_fail: next(n),
        sonic_special_s_dash: next(n),
        sonic_special_hi_jump: next(n),
    }
}

fn zelda_ids_from(n: &mut i32) -> ZeldaIds {
    ZeldaIds {
        situation: situations(n),
        status: status_kinds(n),
        zelda_special_s_loop: next(n),
        zelda_special_s_end: next(n),
        zelda_special_hi_3: next(n),
        zelda_special_lw_charge: next(n),
        zelda_special_lw_end: next(n),
        phantom_build: next(n),
        phantom_attack: next(n),
        motion_special_n: next(n) as u64,
    }
}

fn lucario_ids() -> LucarioIds {
    let mut n = 0;
    lucario_ids_from(&mut n)
}

fn kirby_ids() -> KirbyIds {
    let mut n = 0;
    kirby_ids_from(&mut n)
}

fn sonic_ids() -> SonicIds {
    let mut n = 0;
    sonic_ids_from(&mut n)
}

fn zelda_ids() -> ZeldaIds {
    let mut n = 0;
    zelda_ids_from(&mut n)
}

fn no_cat() -> CommandFlags {
    CommandFlags {
        special_n: false, special_s: false, special_hi: false, special_lw: false, catch: false,
        attack_s4: false, attack_hi4: false, attack_lw4: false, attack_s3: false, attack_hi3: false,
        attack_lw3: false, attack_n: false,
    }
}

fn hit_cancel(grounded: bool, cat: CommandFlags) -> HitCancelState {
    HitCancelState {
        enable_cancel: false, in_hitlag: false, burnout: false, hit_cancel: true,
        grounded, aerial: false, cat,
    }
}


// ----- Lucario -----

#[test]
fn lucario_hit_cancel_priorities() {
    let ids = lucario_ids();
    let s = &ids.status;
    let all = CommandFlags {
        special_n: true, special_s: true, special_hi: true, special_lw: false, catch: true,
        attack_s4: true, attack_hi4: true, attack_lw4: true, attack_s3: true, attack_hi3: true,
        attack_lw3: true, attack_n: true,
    };
    assert_eq!(lucario::special_lw_check_cancel(&ids, &hit_cancel(true, all)),
        Some(StatusRequest { status: s.special_n, flag: false }));
    // side special is ignored while down special is held
    let side = CommandFlags { special_s: true, special_lw: true, ..no_cat() };
    assert_eq!(lucario::special_lw_check_cancel(&ids, &hit_cancel(true, side)), None);
    let side = CommandFlags { special_s: true, ..no_cat() };
    assert_eq!(lucario::special_lw_check_cancel(&ids, &hit_cancel(true, side)),
        Some(StatusRequest { status: s.special_s, flag: false }));
    let ground = CommandFlags { attack_s3: true, attack_lw4: true, ..no_cat() };
    assert_eq!(lucario::special_lw_check_cancel(&ids, &hit_cancel(true, ground)),
        Some(StatusRequest { status: s.attack_lw4_start, flag: true }));
    let tilt = CommandFlags { attack_hi3: true, attack_n: true, ..no_cat() };
    assert_eq!(lucario::special_lw_check_cancel(&ids, &hit_cancel(true, tilt)),
        Some(StatusRequest { status: s.attack_hi3, flag: false }));
    // ground attacks are not taken in the air
    assert_eq!(lucario::special_lw_check_cancel(&ids, &hit_cancel(false, ground)), None);
    let mut air = hit_cancel(false, no_cat());
    air.aerial = true;
    assert_eq!(lucario::special_lw_check_cancel(&ids, &air),
        Some(StatusRequest { status: s.attack_air, flag: true }));
}

#[test]
fn lucario_hit_cancel_needs_hit_and_no_burnout() {
    let ids = lucario_ids();
    let cat = CommandFlags { special_n: true, ..no_cat() };
    let mut st = hit_cancel(true, cat);
    st.hit_cancel = false;
    assert_eq!(lucario::special_lw_check_cancel(&ids, &st), None);
    let mut st = hit_cancel(true, cat);
    st.burnout = true;
    assert_eq!(lucario::special_lw_check_cancel(&ids, &st), None);
    let mut st = hit_cancel(true, cat);
    st.in_hitlag = true;
    assert_eq!(lucario::special_lw_check_cancel(&ids, &st), None);
    let mut st = hit_cancel(true, cat);
    st.enable_cancel = true;
    assert_eq!(lucario::special_lw_check_cancel(&ids, &st), None);
}

#[test]
fn lucario_set_kinetic_first_then_inherit() {
    let ids = lucario_ids();
    let first = lucario::special_lw_set_kinetic(&ids, ids.situation.air, false, 10, 20);
    assert_eq!(first, KineticPlan {
        situation: ids.situation.air, correct_kind: ids.correct_air, motion: 20,
        keep_frame: false, set_inherit: true, kinetic_type: ids.kinetic_motion_air,
    });
    let later = lucario::special_lw_set_kinetic(&ids, ids.situation.ground, true, 10, 20);
    assert_eq!(later, KineticPlan {
        situation: ids.situation.ground, correct_kind: ids.correct_ground, motion: 10,
        keep_frame: true, set_inherit: false, kinetic_type: ids.kinetic_motion,
    });
}

#[test]
fn lucario_main_and_loop() {
    let ids = lucario_ids();
    assert!(lucario::special_lw_main(&ids, ids.situation.air));
    assert!(!lucario::special_lw_main(&ids, ids.situation.ground));
    let p = lucario::special_lw_main_loop(&ids, false, true, false, ids.situation.ground);
    assert_eq!(p.start, LwLoopStart::Land { status: ids.status.landing_fall_special, landing_frame: 10 });
    let p = lucario::special_lw_main_loop(&ids, false, true, false, ids.situation.air);
    assert_eq!(p.start, LwLoopStart::Reorient);
    let p = lucario::special_lw_main_loop(&ids, true, true, true, ids.situation.air);
    assert_eq!(p.start, LwLoopStart::Continue);
    assert_eq!(p.checks, vec![LwCheck::AirFallCheck]);
    assert_eq!(p.end_status, ids.status.fall);
    let p = lucario::special_lw_main_loop(&ids, false, false, true, ids.situation.ground);
    assert_eq!(p.checks, vec![LwCheck::WaitGroundCheck]);
    assert_eq!(p.end_status, ids.status.wait);
    let p = lucario::special_lw_main_loop(&ids, false, false, false, ids.situation.ground);
    assert_eq!(p.checks, vec![LwCheck::HitCancel]);
}

#[test]
fn lucario_end_spends_meter() {
    let ids = lucario_ids();
    let s = &ids.status;
    assert_eq!(lucario::special_lw_end(&ids, s.attack_air, false, false, ids.situation.air),
        Some(MeterSpend { regen_pause_frames: 120, slow_down: true }));
    assert_eq!(lucario::special_lw_end(&ids, s.catch, false, false, ids.situation.ground),
        Some(MeterSpend { regen_pause_frames: 120, slow_down: false }));
    assert_eq!(lucario::special_lw_end(&ids, s.special_lw, false, false, ids.situation.ground), None);
    assert_eq!(lucario::special_lw_end(&ids, s.attack, true, false, ids.situation.ground), None);
    assert_eq!(lucario::special_lw_end(&ids, s.attack, false, true, ids.situation.ground), None);
}

#[test]
fn lucario_install_registers_four_scripts() {
    let ids = lucario_ids();
    let mut agent = Agent::new("lucario");
    lucario::install(&mut agent, &ids);
    let lw = ids.status.special_lw;
    assert_eq!(agent.status_scripts, vec![
        StatusScript { line: StatusLine::Pre, status: lw, script: Script::LucarioSpecialLwPre },
        StatusScript { line: StatusLine::Main, status: lw, script: Script::LucarioSpecialLwMain },
        StatusScript { line: StatusLine::Init, status: lw, script: Script::LucarioSpecialLwInit },
        StatusScript { line: StatusLine::End, status: lw, script: Script::LucarioSpecialLwEnd },
    ]);
    assert!(agent.line_scripts.is_empty());
    assert!(!agent.installed);
}

// ----- Kirby (Sora's magic) -----

#[test]
fn kirby_thunder_setup() {
    let ids = kirby_ids();
    assert_eq!(kirby::special_n2_main(&ids, true, ids.situation.ground, true), N2MainPlan {
        keep_gravity_speed: true, ground_stop: true, air_glide: false, air_brake: false,
    });
    assert_eq!(kirby::special_n2_main(&ids, false, ids.situation.air, true), N2MainPlan {
        keep_gravity_speed: false, ground_stop: false, air_glide: true, air_brake: true,
    });
    assert!(!kirby::special_n2_main(&ids, false, ids.situation.air, false).air_brake);
}

#[test]
fn kirby_thunder_loop() {
    let ids = kirby_ids();
    let p = kirby::special_n2_main_loop(&ids, true, ids.situation.ground);
    assert_eq!(p.checks, vec![N2Check::WaitGroundCheck, N2Check::AirFallCheck]);
    assert_eq!(p.end_status, ids.status.wait);
    let p = kirby::special_n2_main_loop(&ids, false, ids.situation.air);
    assert_eq!(p.checks, vec![N2Check::AirFallCheck]);
    assert_eq!(p.end_status, ids.status.fall);
}

#[test]
fn kirby_thunder_frame() {
    let ids = kirby_ids();
    let p = kirby::special_n2_main_loop_function(&ids, true, ids.situation.air, true, ids.trail_special_n2, 5, true, true);
    assert_eq!(p, N2FramePlan { clear_shot: true, hop_push: true, turn_around: true });
    let p = kirby::special_n2_main_loop_function(&ids, true, ids.situation.ground, true, ids.trail_special_n2, 4, true, true);
    assert_eq!(p, N2FramePlan { clear_shot: true, hop_push: false, turn_around: false });
    let p = kirby::special_n2_main_loop_function(&ids, false, ids.situation.air, true, ids.trail_special_n2, 9, true, false);
    assert_eq!(p, N2FramePlan { clear_shot: false, hop_push: false, turn_around: false });
}

#[test]
fn kirby_magic_end_locks_switching() {
    let ids = kirby_ids();
    let locked = MagicEndPlan { lock_timer: Some(600), remove_cloud: false };
    let open = MagicEndPlan { lock_timer: None, remove_cloud: false };
    assert_eq!(kirby::special_n_end(&ids, MagicEnd::N1, ids.trail_special_n1_shoot, 600), open);
    assert_eq!(kirby::special_n_end(&ids, MagicEnd::N1, ids.status.wait, 600), locked);
    assert_eq!(kirby::special_n_end(&ids, MagicEnd::N1Shoot, ids.trail_special_n1_end, 600), open);
    assert_eq!(kirby::special_n_end(&ids, MagicEnd::N1Shoot, ids.status.fall, 600), locked);
    assert_eq!(kirby::special_n_end(&ids, MagicEnd::N1End, ids.trail_special_n1_shoot, 600), locked);
    assert_eq!(kirby::special_n_end(&ids, MagicEnd::N2, ids.status.wait, 600), locked);
    assert_eq!(kirby::special_n_end(&ids, MagicEnd::N3, ids.status.wait, 600),
        MagicEndPlan { lock_timer: Some(600), remove_cloud: true });
}

#[test]
fn kirby_install_registers_magic_scripts() {
    let ids = kirby_ids();
    let mut agent = Agent::new("kirby");
    kirby::install(&mut agent, &ids);
    assert_eq!(agent.status_scripts.len(), 7);
    assert_eq!(agent.status_scripts[0], StatusScript {
        line: StatusLine::Pre, status: ids.trail_special_n2, script: Script::KirbyTrailSpecialN2Pre,
    });
    assert_eq!(agent.status_scripts[6], StatusScript {
        line: StatusLine::End, status: ids.trail_special_n3, script: Script::KirbyTrailSpecialN3End,
    });
}

// ----- Sonic -----

fn freefall(ids: &SonicIds) -> FreefallState {
    FreefallState {
        changing: false,
        situation: ids.situation.air,
        status: ids.status.fall,
        prev_status: ids.status.wait,
        flag: false,
        enable_cancel: false,
    }
}

#[test]
fn sonic_spin_jump() {
    let ids = sonic_ids();
    assert_eq!(sonic::sonic_spindash_jump_waveland(&ids, ids.sonic_special_s_turn, true), Some(ids.sonic_spin_jump));
    assert_eq!(sonic::sonic_spindash_jump_waveland(&ids, ids.sonic_special_s_turn, false), None);
    assert_eq!(sonic::sonic_spindash_jump_waveland(&ids, ids.status.wait, true), None);
}

#[test]
fn sonic_second_up_special_freefalls() {
    let ids = sonic_ids();
    let mut flag = false;
    // first up special in the air: no freefall
    let mut st = freefall(&ids);
    st.status = ids.sonic_special_hi_jump;
    st.enable_cancel = true;
    let p = sonic::up_special_freefall(&ids, &st);
    assert!(!p.freefall);
    if let Some(b) = p.set_flag { flag = b; }
    // leaving it arms the flag
    let mut st = freefall(&ids);
    st.changing = true;
    st.prev_status = ids.sonic_special_hi_jump;
    st.flag = flag;
    let p = sonic::up_special_freefall(&ids, &st);
    assert_eq!(p.set_flag, Some(true));
    if let Some(b) = p.set_flag { flag = b; }
    // a second up special in the same airtime freefalls once it may be cancelled
    let mut st = freefall(&ids);
    st.status = ids.sonic_special_hi_jump;
    st.flag = flag;
    assert!(!sonic::up_special_freefall(&ids, &st).freefall);
    st.enable_cancel = true;
    assert!(sonic::up_special_freefall(&ids, &st).freefall);
    // landing clears it
    let mut st = freefall(&ids);
    st.changing = true;
    st.situation = ids.situation.ground;
    st.status = ids.status.landing;
    st.flag = flag;
    assert_eq!(sonic::up_special_freefall(&ids, &st).set_flag, Some(false));
}

#[test]
fn sonic_flag_persists_in_the_air() {
    let ids = sonic_ids();
    let mut st = freefall(&ids);
    st.flag = true;
    st.changing = true;
    let p = sonic::up_special_freefall(&ids, &st);
    assert_eq!(p.set_flag, None);
    let mut st = freefall(&ids);
    st.flag = true;
    st.changing = true;
    st.situation = ids.situation.cliff;
    assert_eq!(sonic::up_special_freefall(&ids, &st).set_flag, Some(false));
}

#[test]
fn sonic_fastfall_gate() {
    let ids = sonic_ids();
    assert!(sonic::fastfall_specials(&ids, false, false, ids.sonic_special_s_dash, ids.situation.air));
    assert!(!sonic::fastfall_specials(&ids, true, false, ids.sonic_special_s_dash, ids.situation.air));
    assert!(!sonic::fastfall_specials(&ids, false, true, ids.sonic_special_s_dash, ids.situation.air));
    assert!(!sonic::fastfall_specials(&ids, false, false, ids.status.special_hi, ids.situation.air));
    assert!(!sonic::fastfall_specials(&ids, false, false, ids.sonic_special_s_dash, ids.situation.ground));
}

#[test]
fn dive_needs_reserved_dive_and_motion_physics() {
    assert!(dive_resets_gravity(true, 3, 3, 4));
    assert!(dive_resets_gravity(true, 4, 3, 4));
    assert!(!dive_resets_gravity(true, 5, 3, 4));
    assert!(!dive_resets_gravity(false, 3, 3, 4));
}

#[test]
fn frame_scripts_are_installed() {
    let mut agent = Agent::new("sonic");
    sonic::install(&mut agent);
    assert_eq!(agent.line_scripts, vec![LineScript { line: StatusLine::Main, script: Script::SonicFrame }]);
    let mut agent = Agent::new("zelda");
    zelda::install(&mut agent);
    assert_eq!(agent.line_scripts, vec![LineScript { line: StatusLine::Main, script: Script::ZeldaFrame }]);
    let mut agent = Agent::new("zelda_phantom");
    phantom::install(&mut agent);
    assert_eq!(agent.line_scripts, vec![LineScript { line: StatusLine::Main, script: Script::PhantomFrame }]);
    assert!(agent.status_scripts.is_empty());
}

// ----- Zelda -----

#[test]
fn zelda_teleport_and_cancels() {
    let ids = zelda_ids();
    assert!(zelda::teleport_tech(&ids, ids.status.special_hi, false, ids.situation.ground));
    assert!(!zelda::teleport_tech(&ids, ids.status.special_hi, true, ids.situation.ground));
    assert!(!zelda::teleport_tech(&ids, ids.status.special_hi, false, ids.situation.air));
    assert_eq!(zelda::phantom_special_cancel(&ids, true, false, false, true, true, false, ids.status.attack),
        Some(PhantomCancel { forward: true }));
    assert_eq!(zelda::phantom_special_cancel(&ids, true, false, false, true, true, false, ids.status.attack_air),
        Some(PhantomCancel { forward: false }));
    assert_eq!(zelda::phantom_special_cancel(&ids, true, true, false, true, true, false, ids.status.attack), None);
    assert_eq!(zelda::phantom_special_cancel(&ids, true, false, false, true, true, true, ids.status.attack), None);
    assert!(zelda::nayru_land_cancel(&ids, ids.motion_special_n, true, true));
    assert!(!zelda::nayru_land_cancel(&ids, ids.motion_special_n, true, false));
    assert_eq!(zelda::dins_fire_cancels(&ids, ids.zelda_special_s_end, ids.situation.ground, ids.situation.air),
        Some(LandCancel { landing_frame: 7, status: ids.status.landing_fall_special }));
    assert_eq!(zelda::dins_fire_cancels(&ids, ids.zelda_special_s_end, ids.situation.ground, ids.situation.ground), None);
}

fn aura(ids: &ZeldaIds, handle: i32, phantom: bool) -> AuraState {
    AuraState {
        status: ids.status.wait,
        ready_go: true,
        handle,
        phantom_exists: phantom,
        aura_alive: false,
        arrow_alive: false,
    }
}

#[test]
fn zelda_aura_cycle() {
    let ids = zelda_ids();
    // a Phantom appears: the aura is spawned from the ready state
    assert_eq!(zelda::phantom_usability_effects(&ids, &aura(&ids, AURA_READY, true)), AuraStep::Spawn);
    // its aura alive: nothing to do
    let mut st = aura(&ids, 40, true);
    st.aura_alive = true;
    assert_eq!(zelda::phantom_usability_effects(&ids, &st), AuraStep::Idle);
    // its aura died while the Phantom is out: back to ready
    assert_eq!(zelda::phantom_usability_effects(&ids, &aura(&ids, 40, true)), AuraStep::Reset);
    // the Phantom is gone: flash and back to ready, removing its marker
    let mut st = aura(&ids, 40, false);
    st.arrow_alive = true;
    assert_eq!(zelda::phantom_usability_effects(&ids, &st), AuraStep::PhantomGone { expire: true, kill_arrow: true });
    assert_eq!(zelda::phantom_usability_effects(&ids, &aura(&ids, AURA_READY, false)),
        AuraStep::PhantomGone { expire: false, kill_arrow: false });
    // on the result screen the aura is switched off, and stays off
    let mut st = aura(&ids, 40, true);
    st.status = ids.status.win;
    assert_eq!(zelda::phantom_usability_effects(&ids, &st), AuraStep::Disable);
    let mut st = aura(&ids, 40, true);
    st.ready_go = false;
    assert_eq!(zelda::phantom_usability_effects(&ids, &st), AuraStep::Disable);
    assert_eq!(zelda::phantom_usability_effects(&ids, &aura(&ids, AURA_DISABLED, true)), AuraStep::Idle);
}

#[test]
fn zelda_fastfall_gate() {
    let ids = zelda_ids();
    assert!(zelda::fastfall_specials(&ids, false, false, ids.zelda_special_lw_charge, ids.situation.air));
    assert!(!zelda::fastfall_specials(&ids, false, false, ids.status.special_hi, ids.situation.air));
}

// ----- Phantom -----

fn build(ids: &ZeldaIds) -> BuildState {
    BuildState {
        phantom_status: ids.phantom_build,
        phantom_changing: false,
        phantom_situation: ids.situation.air,
        stick_down: true,
        zelda_status: ids.status.attack,
        ganon_fall_air: false,
        ganon_fall_ground: false,
        hitstun_left: false,
        hit_or_shield: true,
        parried: false,
        special_lw_input: true,
    }
}

#[test]
fn phantom_hits() {
    assert_eq!(phantom::phantom_callback(true, true, true, false),
        PhantomHitPlan { mark_hit: true, reflected: false, disable: false });
    assert_eq!(phantom::phantom_callback(false, true, false, false),
        PhantomHitPlan { mark_hit: false, reflected: true, disable: false });
    assert_eq!(phantom::phantom_callback(false, false, true, false),
        PhantomHitPlan { mark_hit: false, reflected: false, disable: true });
    assert_eq!(phantom::phantom_callback(false, false, true, true),
        PhantomHitPlan { mark_hit: false, reflected: false, disable: false });
}

#[test]
fn phantom_build_release() {
    let ids = zelda_ids();
    assert_eq!(phantom::phantom_build_step(&ids, &build(&ids)),
        BuildPlan { flash: false, passable: Some(true), release: true });
    let mut st = build(&ids);
    st.zelda_status = ids.status.guard;
    assert_eq!(phantom::phantom_build_step(&ids, &st), BuildPlan { flash: false, passable: Some(true), release: false });
    let mut st = build(&ids);
    st.hitstun_left = true;
    assert!(!phantom::phantom_build_step(&ids, &st).release);
    let mut st = build(&ids);
    st.parried = true;
    assert!(!phantom::phantom_build_step(&ids, &st).release);
    let mut st = build(&ids);
    st.phantom_situation = ids.situation.ground;
    assert_eq!(phantom::phantom_build_step(&ids, &st).passable, None);
    let mut st = build(&ids);
    st.phantom_status = ids.phantom_attack;
    st.phantom_changing = true;
    assert_eq!(phantom::phantom_build_step(&ids, &st), BuildPlan { flash: true, passable: None, release: false });
}

// ----- King Dedede, Ryu, agents -----

#[test]
fn gordo_death_resets_recatch_only_for_dedede() {
    assert!(dedede::dead_end(12, 12));
    assert!(!dedede::dead_end(13, 12));
    let mut agent = Agent::new("dedede_gordo");
    dedede::install(&mut agent, 4);
    assert_eq!(agent.status_scripts, vec![StatusScript { line: StatusLine::End, status: 4, script: Script::GordoDeadEnd }]);
}

#[test]
fn ryu_agent_is_installed() {
    let agent = ryu::install();
    assert_eq!(agent.name, "ryu_shinkuhadoken");
    assert!(agent.installed);
}

#[test]
fn agent_records_registrations_in_order() {
    let mut agent = Agent::new("test");
    assert_eq!(agent.name, "test");
    agent.status(StatusLine::Init, 3, Script::SonicFrame);
    agent.on_line(StatusLine::Main, Script::ZeldaFrame);
    agent.status(StatusLine::End, 5, Script::GordoDeadEnd);
    assert_eq!(agent.status_scripts, vec![
        StatusScript { line: StatusLine::Init, status: 3, script: Script::SonicFrame },
        StatusScript { line: StatusLine::End, status: 5, script: Script::GordoDeadEnd },
    ]);
    assert_eq!(agent.line_scripts, vec![LineScript { line: StatusLine::Main, script: Script::ZeldaFrame }]);
    assert!(!agent.installed);
    agent.install();
    assert!(agent.installed);
}
