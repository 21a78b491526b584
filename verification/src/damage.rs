use vstd::prelude::*;
use crate::ids::{Situations, StatusKinds};

verus! {

/// The effect hash of knockback smoke.
pub const KB_SMOKE_EFFECT: u64 = 0x1154cb72bf;

/// The game's ids that the knockback rules compare against.
pub struct DamageIds {
    pub situation: Situations,
    pub status: StatusKinds,
    /// The stop-release action "ground to air".
    pub release_ground_to_air: i32,
    pub damage_level_1: i32,
    pub damage_level_2: i32,
    pub damage_level_3: i32,
    pub motion_damage_fly_roll: u64,
    pub motion_damage_fly_n: u64,
    pub motion_invalid: u64,
    pub motion_wall_damage: u64,
    pub attr_paralyze: u64,
    pub attr_paralyze_ghost: u64,
}

/// How the direction the hit came from relates to the way the fighter faces.
#[derive(Clone, Copy, Debug, PartialEq, Eq, Structural)]
pub enum LrRelation {
    /// No hit direction is reserved.
    Unset,
    /// The hit pushes the fighter the way it faces (or the product of the two is zero).
    SameSide,
    /// The hit comes from behind.
    OppositeSide,
}

/// What is done with the fighter's facing when hitlag ends.
#[derive(Clone, Copy, Debug, PartialEq, Eq, Structural)]
pub enum LrAction {
    /// Nothing; no hit direction was reserved.
    Keep,
    /// Face the reserved hit direction, then clear it.
    Face,
    /// Turn around to face the attacker, then clear the reserved direction.
    TurnAround,
    /// Only clear the reserved direction (a knocked-out fighter does not turn).
    ClearOnly,
}

pub open spec fn spec_damage_lr_action(ids: DamageIds, relation: LrRelation, status: i32, knockout: bool) -> LrAction {
    match relation {
        LrRelation::Unset => LrAction::Keep,
        LrRelation::SameSide => LrAction::Face,
        LrRelation::OppositeSide =>
            if status == ids.status.damage_fly_roll || status == ids.status.damage_fly_meteor {
                LrAction::Face
            } else if !knockout {
                LrAction::TurnAround
            } else {
                LrAction::ClearOnly
            },
    }
}

/// The facing step taken when a fighter leaves hitlag: hit from behind, it turns to face the
/// attacker, except in a tumble or meteor status, where it takes the hit direction.
pub fn damage_lr_action(ids: &DamageIds, relation: LrRelation, status: i32, knockout: bool) -> (r: LrAction)
    ensures
        r == spec_damage_lr_action(*ids, relation, status, knockout),
        (r == LrAction::Keep) <==> (relation == LrRelation::Unset),
{
    match relation {
        LrRelation::Unset => LrAction::Keep,
        LrRelation::SameSide => LrAction::Face,
        LrRelation::OppositeSide => {
            if status == ids.status.damage_fly_roll || status == ids.status.damage_fly_meteor {
                LrAction::Face
            } else if !knockout {
                LrAction::TurnAround
            } else {
                LrAction::ClearOnly
            }
        },
    }
}

// ---------------------------------------------------------------------------
// FighterStatusUniqProcessDamage_leave_stop_hook
// ---------------------------------------------------------------------------

/// What the game reports when a fighter leaves hitlag.
pub struct LeaveStopState {
    /// The hook's third argument: whether the leave-stop processing runs.
    pub proceed: bool,
    pub status_kind: i32,
    pub release_action: i32,
    pub motion_kind: u64,
    pub finish_camera: bool,
    pub lr_relation: LrRelation,
    pub knockout: bool,
    pub pierce: bool,
    pub has_motion_callback: bool,
}

/// How a tumble's speed-up is applied to its motion.
#[derive(Clone, Copy, Debug, PartialEq, Eq, Structural)]
pub enum SpeedUpMode {
    /// Skip ahead in the motion (the camera is not following a finishing hit).
    SetFrame,
    /// Scale the motion's rate (the camera follows a finishing hit).
    SetRate,
}

/// What follows the change to the damage motion.
#[derive(Clone, Copy, Debug, PartialEq, Eq, Structural)]
pub enum AfterMotion {
    /// Set the knockback motion rate and roll angle, mark the motion consumed, apply ASDI and stop.
    FlyRate,
    /// A tumble: maybe set the roll angle, then adjust the motion by the speed-up.
    Roll { set_angle: bool, speed_up: SpeedUpMode },
    /// Nothing more before the motion is marked consumed.
    Plain,
}

/// The damage motion step.
#[derive(Clone, Copy, Debug, PartialEq, Eq, Structural)]
pub enum MotionStep {
    /// The reserved motion is "invalid": no motion change.
    Skip,
    /// Change to the reserved motion.
    Change { wall_start: bool, via_callback: bool, then: AfterMotion },
}

/// What the leave-hitlag processing does, in order.
#[derive(Clone, Copy, Debug, PartialEq, Eq, Structural)]
pub struct LeaveStopPlan {
    /// Whether anything runs at all.
    pub run: bool,
    /// Lift a grounded fighter into the air.
    pub to_air: bool,
    /// The damage motion to change to.
    pub motion_kind: u64,
    pub lr: LrAction,
    pub motion: MotionStep,
    /// Apply ASDI at the end.
    pub asdi: bool,
    /// Reset the motion rate to 1 at the very end.
    pub reset_rate: bool,
}

pub open spec fn is_fly_or_meteor(ids: DamageIds, status: i32) -> bool {
    status == ids.status.damage_fly || status == ids.status.damage_fly_meteor
}

pub open spec fn spec_leave_stop_motion(ids: DamageIds, st: LeaveStopState, motion: u64) -> MotionStep {
    let s = ids.status;
    if motion == ids.motion_invalid {
        MotionStep::Skip
    } else {
        MotionStep::Change {
            wall_start: motion == ids.motion_wall_damage,
            via_callback: st.status_kind == s.damage_fly && st.has_motion_callback,
            then: if st.status_kind == s.damage_fly_roll {
                AfterMotion::Roll {
                    set_angle: !st.finish_camera,
                    speed_up: if st.finish_camera { SpeedUpMode::SetRate } else { SpeedUpMode::SetFrame },
                }
            } else if seq![s.damage_air, s.damage_fly, s.damage_fly_meteor].contains(st.status_kind) {
                AfterMotion::FlyRate
            } else {
                AfterMotion::Plain
            },
        }
    }
}

pub open spec fn spec_leave_stop(ids: DamageIds, st: LeaveStopState) -> LeaveStopPlan {
    let motion = if st.motion_kind == ids.motion_damage_fly_roll && st.finish_camera {
        ids.motion_damage_fly_n
    } else {
        st.motion_kind
    };
    if !st.proceed {
        LeaveStopPlan {
            run: false, to_air: false, motion_kind: st.motion_kind, lr: LrAction::Keep,
            motion: MotionStep::Skip, asdi: false, reset_rate: false,
        }
    } else {
        let step = spec_leave_stop_motion(ids, st, motion);
        LeaveStopPlan {
            run: true,
            to_air: st.release_action == ids.release_ground_to_air,
            motion_kind: motion,
            lr: spec_damage_lr_action(ids, st.lr_relation, st.status_kind, st.knockout),
            motion: step,
            asdi: true,
            reset_rate: step == MotionStep::Skip && is_fly_or_meteor(ids, st.status_kind) && !st.pierce,
        }
    }
}

/// The steps a fighter takes when it leaves hitlag: lift off, face the hit, change to the
/// damage motion, apply ASDI, and keep tumble and meteor motions at rate 1.
#[allow(non_snake_case)]
pub fn FighterStatusUniqProcessDamage_leave_stop_hook(ids: &DamageIds, st: &LeaveStopState) -> (r: LeaveStopPlan)
    ensures
        r == spec_leave_stop(*ids, *st),
{
    if !st.proceed {
        return LeaveStopPlan {
            run: false, to_air: false, motion_kind: st.motion_kind, lr: LrAction::Keep,
            motion: MotionStep::Skip, asdi: false, reset_rate: false,
        };
    }
    let s = &ids.status;
    let to_air = st.release_action == ids.release_ground_to_air;
    let mut motion = st.motion_kind;
    if motion == ids.motion_damage_fly_roll && st.finish_camera {
        motion = ids.motion_damage_fly_n;
    }
    let lr = damage_lr_action(ids, st.lr_relation, st.status_kind, st.knockout);
    let step = if motion == ids.motion_invalid {
        MotionStep::Skip
    } else {
        let then = if st.status_kind == s.damage_fly_roll {
            AfterMotion::Roll {
                set_angle: !st.finish_camera,
                speed_up: if st.finish_camera { SpeedUpMode::SetRate } else { SpeedUpMode::SetFrame },
            }
        } else if st.status_kind == s.damage_air || st.status_kind == s.damage_fly
            || st.status_kind == s.damage_fly_meteor {
            AfterMotion::FlyRate
        } else {
            AfterMotion::Plain
        };
        MotionStep::Change {
            wall_start: motion == ids.motion_wall_damage,
            via_callback: st.status_kind == s.damage_fly && st.has_motion_callback,
            then,
        }
    };
    let skipped = match step {
        MotionStep::Skip => true,
        _ => false,
    };
    let reset_rate = skipped && (st.status_kind == s.damage_fly || st.status_kind == s.damage_fly_meteor)
        && !st.pierce;
    LeaveStopPlan { run: true, to_air, motion_kind: motion, lr, motion: step, asdi: true, reset_rate }
}

// ---------------------------------------------------------------------------
// check_asdi
// ---------------------------------------------------------------------------

/// What the game reports when automatic smash directional influence may apply.
pub struct AsdiState {
    /// The "Smash 64" custom mode is on.
    pub smash64_mode: bool,
    pub status_kind: i32,
    pub prev_status_kind: i32,
    pub situation: i32,
    pub prev_situation: i32,
    /// The hit was a spike.
    pub is_spike: bool,
    pub cstick_on: bool,
    pub cstick_override: bool,
    pub damage_speed_up: bool,
}

/// How ASDI is applied.
#[derive(Clone, Copy, Debug, PartialEq, Eq, Structural)]
pub struct AsdiPlan {
    /// Move the fighter by the ASDI distance and allow teching at once.
    pub apply: bool,
    /// Read the C-stick in place of the control stick.
    pub use_sub_stick: bool,
    /// Scale the distance by the damage speed-up magnitude (else by 1).
    pub use_speed_up_mag: bool,
}

/// ASDI applies except in Smash 64 mode, on wall, ceiling and floor bounces, after a throw,
/// and on a grounded spike that launched the fighter.
pub open spec fn asdi_applies(ids: DamageIds, st: AsdiState) -> bool {
    let s = ids.status;
    &&& !st.smash64_mode
    &&& st.status_kind != s.damage_fly_reflect_lr
    &&& st.status_kind != s.damage_fly_reflect_u
    &&& st.status_kind != s.damage_fly_reflect_d
    &&& st.prev_status_kind != s.thrown
    &&& !(st.prev_situation == ids.situation.ground && st.situation == ids.situation.air && st.is_spike)
}

/// Whether and how automatic smash directional influence moves the fighter.
pub fn check_asdi(ids: &DamageIds, st: &AsdiState) -> (r: AsdiPlan)
    ensures
        r.apply == asdi_applies(*ids, *st),
        r.use_sub_stick == (st.cstick_on && !st.cstick_override),
        r.use_speed_up_mag == st.damage_speed_up,
{
    let s = &ids.status;
    let apply = !st.smash64_mode
        && st.status_kind != s.damage_fly_reflect_lr
        && st.status_kind != s.damage_fly_reflect_u
        && st.status_kind != s.damage_fly_reflect_d
        && st.prev_status_kind != s.thrown
        && !(st.prev_situation == ids.situation.ground && st.situation == ids.situation.air && st.is_spike);
    AsdiPlan {
        apply,
        use_sub_stick: st.cstick_on && !st.cstick_override,
        use_speed_up_mag: st.damage_speed_up,
    }
}

// ---------------------------------------------------------------------------
// ftstatusuniqprocessdamage_init_common / check_damage_speed_up_fail
// ---------------------------------------------------------------------------

/// What the damage-status initialization decides.
#[derive(Clone, Copy, Debug, PartialEq, Eq, Structural)]
pub struct InitCommonPlan {
    /// The hit has no reaction frames: end the reaction at once.
    pub end_reaction: bool,
    /// For a hit with reaction frames, whether the "launched in the air" flag is set (or cleared).
    pub fly_air: Option<bool>,
    /// The hit is paralyzing: grant the paralysis-immunity frames.
    pub paralyze: bool,
}

pub open spec fn spec_init_common(ids: DamageIds, reaction_frame: i32, situation: i32, attr: u64) -> InitCommonPlan {
    let end = !(0 < reaction_frame);
    InitCommonPlan {
        end_reaction: end,
        fly_air: if end { None } else { Some(situation == ids.situation.air) },
        paralyze: attr == ids.attr_paralyze || attr == ids.attr_paralyze_ghost,
    }
}

/// The decisions of the damage-status initialization, given the reaction frames (as an
/// integer), the situation and the attack's attribute.
pub fn ftstatusuniqprocessdamage_init_common(ids: &DamageIds, reaction_frame: i32, situation: i32, attr: u64) -> (r: InitCommonPlan)
    ensures
        r == spec_init_common(*ids, reaction_frame, situation, attr),
{
    let end = !(0 < reaction_frame);
    InitCommonPlan {
        end_reaction: end,
        fly_air: if end { None } else { Some(situation == ids.situation.air) },
        paralyze: attr == ids.attr_paralyze || attr == ids.attr_paralyze_ghost,
    }
}

/// The four bytes of the damage log that cancel the knockback speed-up.
#[derive(Clone, Copy, Debug, PartialEq, Eq, Structural)]
pub struct DamageLogBytes {
    pub b8f: u8,
    pub b92: u8,
    pub b93: u8,
    pub b98: u8,
}

/// The knockback speed-up fails without a damage log, or when any of the four bytes is set.
pub fn check_damage_speed_up_fail(log: Option<DamageLogBytes>) -> (r: bool)
    ensures
        r == match log {
            None => true,
            Some(b) => b.b8f != 0 || b.b92 != 0 || b.b93 != 0 || b.b98 != 0,
        },
{
    match log {
        None => true,
        Some(b) => b.b8f != 0 || b.b92 != 0 || b.b93 != 0 || b.b98 != 0,
    }
}

// ---------------------------------------------------------------------------
// sub_ftStatusUniqProcessDamageFly_getMotionKind_hook
// ---------------------------------------------------------------------------

/// The knockback motion picked for the hit height is the one already playing: pick again.
pub fn fly_motion_repeats(picked: u64, current: u64) -> (r: bool)
    ensures
        r == (picked == current),
{
    picked == current
}

pub open spec fn spec_rerolled_height(rand_val: int, height: int, term: int) -> int {
    let h = rand_val + 1 + height;
    if h >= term { h - term } else { h }
}

/// The hit height used for the second pick: the random draw plus one, past the first
/// height, wrapped once around the number of heights.
pub fn reroll_height(rand_val: i32, height: i32, term: i32) -> (r: i32)
    requires
        1 + height <= i32::MAX,
        i32::MIN <= rand_val + 1 + height <= i32::MAX,
        rand_val + 1 + height >= term ==> i32::MIN <= rand_val + 1 + height - term <= i32::MAX,
    ensures
        r == spec_rerolled_height(rand_val as int, height as int, term as int),
        (0 <= height < term && 0 <= rand_val < term - 1) ==> (0 <= r < term && r != height),
{
    let mut h = rand_val + (1 + height);
    if h >= term {
        h = h - term;
    }
    h
}

// ---------------------------------------------------------------------------
// status_DamageFly_Main_hook / calc_damage_motion_rate_hook / sub_DamageFlyCommon_hook
// ---------------------------------------------------------------------------

/// The game checks that may end a knockback status, each of which acts and reports success.
#[derive(Clone, Copy, Debug, PartialEq, Eq, Structural)]
pub enum FlyCheck {
    DamageFlyCommon,
    ReflectWall,
    ReflectCeil,
    ReflectFloor,
}

/// What the main loop of the knockback status does.
#[derive(Debug, PartialEq, Eq)]
pub struct DamageFlyMainPlan {
    /// The camera follows a finishing hit: run the finishing-camera routine instead.
    pub finish_camera: bool,
    /// Freeze the motion on its last frame.
    pub freeze_motion: bool,
    /// Change to the damage-fall status and stop.
    pub to_damage_fall: bool,
    /// The checks to run in order until one succeeds.
    pub checks: Vec<FlyCheck>,
}

/// The knockback checks in order: bounces off walls, ceilings and floors only out of hitlag.
pub open spec fn damage_fly_checks(damage_stop: bool) -> Seq<FlyCheck> {
    if damage_stop {
        seq![FlyCheck::DamageFlyCommon]
    } else {
        seq![FlyCheck::DamageFlyCommon, FlyCheck::ReflectWall, FlyCheck::ReflectCeil, FlyCheck::ReflectFloor]
    }
}

/// The main-loop steps of the knockback status.
pub fn status_DamageFly_Main_hook(
    finish_camera: bool,
    at_last_frame_moving: bool,
    fall_enabled: bool,
    end_reaction: bool,
    damage_stop: bool,
) -> (r: DamageFlyMainPlan)
    ensures
        r.finish_camera == finish_camera,
        r.freeze_motion == (!finish_camera && at_last_frame_moving),
        r.to_damage_fall == (!finish_camera && fall_enabled && end_reaction),
        r.checks@ == (if finish_camera || (fall_enabled && end_reaction) { Seq::<FlyCheck>::empty() }
            else { damage_fly_checks(damage_stop) }),
{
    if finish_camera {
        return DamageFlyMainPlan { finish_camera, freeze_motion: false, to_damage_fall: false, checks: Vec::new() };
    }
    let to_fall = fall_enabled && end_reaction;
    let mut checks: Vec<FlyCheck> = Vec::new();
    if !to_fall {
        checks.push(FlyCheck::DamageFlyCommon);
        if !damage_stop {
            checks.push(FlyCheck::ReflectWall);
            checks.push(FlyCheck::ReflectCeil);
            checks.push(FlyCheck::ReflectFloor);
        }
    }
    proof {
        if !to_fall {
            assert(checks@ =~= damage_fly_checks(damage_stop));
        } else {
            assert(checks@ =~= Seq::<FlyCheck>::empty());
        }
    }
    DamageFlyMainPlan { finish_camera, freeze_motion: at_last_frame_moving, to_damage_fall: to_fall, checks }
}

/// Knockback and meteor motions that are not piercing play at a fixed rate of 1.
pub fn calc_damage_motion_rate_hook(ids: &DamageIds, status: i32, pierce: bool) -> (r: bool)
    ensures
        r == (is_fly_or_meteor(*ids, status) && !pierce),
{
    (status == ids.status.damage_fly || status == ids.status.damage_fly_meteor) && !pierce
}

/// The game checks of the shared knockback routine, each of which acts and reports success.
#[derive(Clone, Copy, Debug, PartialEq, Eq, Structural)]
pub enum FlyCommonCheck {
    PassiveWallJump,
    PassiveWall,
    PassiveCeil,
    AirSpecial,
    AirItemThrow,
    AirLasso,
    AirAttack,
    AirTreadJump,
    AirWallJump,
    AirJumpAerial,
    DamageFlyUniq,
}

/// What the shared knockback routine does.
#[derive(Debug, PartialEq, Eq)]
pub struct FlyCommonPlan {
    /// The checks to run in order; the routine succeeds at the first that succeeds.
    pub checks: Vec<FlyCommonCheck>,
    /// When no check succeeds, clear buffered inputs once and remember having done so.
    pub reset_trigger: bool,
}

/// Techs come first; once hitstun ends, actions (but not air dodges) may interrupt it.
pub open spec fn fly_common_checks(end_reaction: bool, stopping: bool) -> Seq<FlyCommonCheck> {
    let techs = seq![FlyCommonCheck::PassiveWallJump, FlyCommonCheck::PassiveWall, FlyCommonCheck::PassiveCeil];
    let actions = seq![FlyCommonCheck::AirSpecial, FlyCommonCheck::AirItemThrow, FlyCommonCheck::AirLasso,
        FlyCommonCheck::AirAttack, FlyCommonCheck::AirTreadJump, FlyCommonCheck::AirWallJump,
        FlyCommonCheck::AirJumpAerial];
    let uniq = if stopping { Seq::<FlyCommonCheck>::empty() } else { seq![FlyCommonCheck::DamageFlyUniq] };
    if end_reaction { techs + actions + uniq } else { techs + uniq }
}

/// The checks of the shared knockback routine, and whether buffered inputs are cleared
/// (from the second frame of hitstun, once per status).
pub fn sub_DamageFlyCommon_hook(end_reaction: bool, stopping: bool, frame: i32, reset_done: bool) -> (r: FlyCommonPlan)
    ensures
        r.checks@ == fly_common_checks(end_reaction, stopping),
        r.reset_trigger == (!end_reaction && !stopping && frame > 1 && !reset_done),
{
    let mut checks: Vec<FlyCommonCheck> = Vec::new();
    checks.push(FlyCommonCheck::PassiveWallJump);
    checks.push(FlyCommonCheck::PassiveWall);
    checks.push(FlyCommonCheck::PassiveCeil);
    if end_reaction {
        checks.push(FlyCommonCheck::AirSpecial);
        checks.push(FlyCommonCheck::AirItemThrow);
        checks.push(FlyCommonCheck::AirLasso);
        checks.push(FlyCommonCheck::AirAttack);
        checks.push(FlyCommonCheck::AirTreadJump);
        checks.push(FlyCommonCheck::AirWallJump);
        checks.push(FlyCommonCheck::AirJumpAerial);
    }
    if !stopping {
        checks.push(FlyCommonCheck::DamageFlyUniq);
    }
    proof { assert(checks@ =~= fly_common_checks(end_reaction, stopping)); }
    FlyCommonPlan { checks, reset_trigger: !end_reaction && !stopping && frame > 1 && !reset_done }
}

// ---------------------------------------------------------------------------
// exec_damage_elec_hit_stop_hook
// ---------------------------------------------------------------------------

/// What an electric hitlag frame does after counting down.
#[derive(Clone, Copy, Debug, PartialEq, Eq, Structural)]
pub enum ElecPhase {
    /// Still in hitlag: paralysis holds still, other hits may be flicked (smash DI).
    Holding { flick: bool },
    /// Hitlag is over: release the fighter, enabling gravity if the status asks for it,
    /// lifting a grounded fighter into the air if its release action says so.
    Release { enable_gravity: bool, to_air: bool },
}

/// What a frame of electric hitlag does.
#[derive(Clone, Copy, Debug, PartialEq, Eq, Structural)]
pub struct ElecPlan {
    /// Count the hitlag frames down by one.
    pub decrement: bool,
    /// Mashing ended the hitlag of a buried fighter: zero the counter and stop shaking.
    pub mash_out: bool,
    pub phase: ElecPhase,
}

/// The decisions of a frame of electric hitlag, given the remaining hitlag frames read at its start.
pub fn exec_damage_elec_hit_stop_hook(
    ids: &DamageIds,
    hit_stop_frame: i32,
    buried: bool,
    clatter_over: bool,
    paralyze: bool,
    enable_gravity: bool,
    release_action: i32,
) -> (r: ElecPlan)
    ensures
        r.decrement == (hit_stop_frame > 0),
        r.mash_out == (buried && clatter_over),
        r.phase == (if hit_stop_frame > 0 { ElecPhase::Holding { flick: !paralyze } } else {
            ElecPhase::Release { enable_gravity, to_air: release_action == ids.release_ground_to_air } }),
{
    let phase = if hit_stop_frame > 0 {
        ElecPhase::Holding { flick: !paralyze }
    } else {
        ElecPhase::Release { enable_gravity, to_air: release_action == ids.release_ground_to_air }
    };
    ElecPlan { decrement: hit_stop_frame > 0, mash_out: buried && clatter_over, phase }
}

// ---------------------------------------------------------------------------
// FighterStatusDamage__is_enable_damage_fly_effect_hook / sub_update_damage_fly_effect
// ---------------------------------------------------------------------------

/// The answer of the knockback-smoke check, and whether smoke is switched off for the status.
#[derive(Clone, Copy, Debug, PartialEq, Eq, Structural)]
pub struct FlyEffectDecision {
    pub enable: bool,
    pub no_smoke: bool,
}

/// The game's answer `game_enable` is kept only from the third knockback frame on and
/// at smoke speed; in the first frames, a launch too slow for more than one or two puffs
/// switches the smoke off.
pub fn FighterStatusDamage__is_enable_damage_fly_effect_hook(
    game_enable: bool,
    fly_frame: i32,
    few_puffs: bool,
    below_smoke_speed: bool,
) -> (r: FlyEffectDecision)
    ensures
        r.enable == (game_enable && fly_frame >= 3 && !below_smoke_speed),
        r.no_smoke == (game_enable && fly_frame < 3 && few_puffs),
{
    if game_enable {
        if fly_frame < 3 {
            return FlyEffectDecision { enable: false, no_smoke: few_puffs };
        } else if below_smoke_speed {
            return FlyEffectDecision { enable: false, no_smoke: false };
        }
    }
    FlyEffectDecision { enable: game_enable, no_smoke: false }
}

/// How the game's knockback-effect update is called: once with `first_smoke` as its smoke
/// argument, then, if `second_call`, again with smoke on (its result replacing the first).
#[derive(Clone, Copy, Debug, PartialEq, Eq, Structural)]
pub struct SmokeCalls {
    pub first_smoke: bool,
    pub second_call: bool,
}

pub open spec fn smoke_suppressed(generate: bool, effect: u64, hitlag_frames: u64, fly_frame: i32) -> bool {
    effect == KB_SMOKE_EFFECT && generate && (hitlag_frames != 0 || (fly_frame > 3 && fly_frame % 2 == 1))
}

/// Knockback smoke comes as separate puffs: none in hitlag, and after the third frame
/// every odd frame's puff is made by a second call.
pub fn sub_update_damage_fly_effect(generate: bool, effect: u64, hitlag_frames: u64, fly_frame: i32) -> (r: SmokeCalls)
    ensures
        r.first_smoke == (generate && !smoke_suppressed(generate, effect, hitlag_frames, fly_frame)),
        r.second_call == (effect == KB_SMOKE_EFFECT && generate && hitlag_frames == 0 && !r.first_smoke),
        // smoke is asked for in some call exactly when it was asked for and there is no hitlag
        // (or the effect is not knockback smoke)
        (r.first_smoke || r.second_call) == (generate && (hitlag_frames == 0 || effect != KB_SMOKE_EFFECT)),
{
    let mut first = generate;
    if effect == KB_SMOKE_EFFECT && generate {
        if hitlag_frames != 0 || (fly_frame > 3 && fly_frame % 2 == 1) {
            first = false;
        }
    }
    let second = effect == KB_SMOKE_EFFECT && generate && hitlag_frames == 0 && !first;
    SmokeCalls { first_smoke: first, second_call: second }
}

/// Law: out of hitlag and after the third knockback frame, knockback smoke alternates: of
/// any two consecutive frames, exactly one has its puff made by the second call.
pub proof fn lemma_puffs_alternate(fly_frame: i32)
    requires
        3 < fly_frame < i32::MAX,
    ensures
        smoke_suppressed(true, KB_SMOKE_EFFECT, 0, fly_frame)
            != smoke_suppressed(true, KB_SMOKE_EFFECT, 0, (fly_frame + 1) as i32),
{
}

// ---------------------------------------------------------------------------
// ftStatusUniqProcessDamage_init / ftStatusUniqProcessDamageAir_init /
// status_Damage_Main / status_DamageAir_Main
// ---------------------------------------------------------------------------

pub open spec fn shortened_life(precede: i32, level_precede: i32) -> u8 {
    (255 - ((precede - level_precede) as u8)) as u8
}

/// The extension of buffered-input life during non-tumble knockback: for damage levels 2
/// and 3 the buffer is shortened by how much the level's buffer is below the common one.
pub fn reduced_buffer_life(ids: &DamageIds, level: i32, precede: i32, level2_precede: i32, level3_precede: i32) -> (r: Option<u8>)
    requires
        level == ids.damage_level_2 ==> i32::MIN <= precede - level2_precede <= i32::MAX,
        level != ids.damage_level_2 && level == ids.damage_level_3 ==> i32::MIN <= precede - level3_precede <= i32::MAX,
    ensures
        r == (if level == ids.damage_level_2 { Some(shortened_life(precede, level2_precede)) }
            else if level == ids.damage_level_3 { Some(shortened_life(precede, level3_precede)) }
            else { None }),
        level == ids.damage_level_2 && 0 <= precede - level2_precede <= 255
            ==> r == Some((255 - (precede - level2_precede)) as u8),
        level != ids.damage_level_2 && level == ids.damage_level_3 && 0 <= precede - level3_precede <= 255
            ==> r == Some((255 - (precede - level3_precede)) as u8),
{
    if level == ids.damage_level_2 {
        let dif = precede - level2_precede;
        Some(255u8 - (dif as u8))
    } else if level == ids.damage_level_3 {
        let dif = precede - level3_precede;
        Some(255u8 - (dif as u8))
    } else {
        None
    }
}

/// In very weak (level 1) knockback, buffered inputs are dropped on the frame the motion
/// reaches one frame before its cancel frame.
pub fn damage_main_clears_buffer(ids: &DamageIds, level: i32, crosses_cancel_frame: bool) -> (r: bool)
    ensures
        r == (level == ids.damage_level_1 && crosses_cancel_frame),
{
    level == ids.damage_level_1 && crosses_cancel_frame
}


/// Law: when hitlag ends, the damage motion is the reserved one, except that a tumble motion
/// becomes the plain knockback motion while the camera follows a finishing hit; the fighter
/// is lifted into the air exactly when the release action says "ground to air", and ASDI is
/// applied; with the processing off nothing happens.
pub proof fn lemma_leave_stop_setup(ids: DamageIds, st: LeaveStopState)
    ensures
        st.proceed ==> spec_leave_stop(ids, st).run,
        st.proceed ==> spec_leave_stop(ids, st).asdi,
        st.proceed ==> (spec_leave_stop(ids, st).to_air <==> st.release_action == ids.release_ground_to_air),
        st.proceed ==> spec_leave_stop(ids, st).motion_kind == (if st.motion_kind == ids.motion_damage_fly_roll
            && st.finish_camera { ids.motion_damage_fly_n } else { st.motion_kind }),
        !st.proceed ==> spec_leave_stop(ids, st) == (LeaveStopPlan {
            run: false, to_air: false, motion_kind: st.motion_kind, lr: LrAction::Keep,
            motion: MotionStep::Skip, asdi: false, reset_rate: false,
        }),
{
}

/// Law: in the air-damage, knockback and meteor statuses, a reserved motion other than
/// "invalid" and the tumble motion is changed to and followed by the knockback motion rate
/// and roll angle; only the knockback status can go through the motion callback, and only
/// the wall-damage motion starts late.
pub proof fn lemma_knockback_motion_gets_fly_rate(ids: DamageIds, st: LeaveStopState)
    requires
        st.proceed,
        st.motion_kind != ids.motion_invalid,
        st.motion_kind != ids.motion_damage_fly_roll,
        st.status_kind == ids.status.damage_air || st.status_kind == ids.status.damage_fly
            || st.status_kind == ids.status.damage_fly_meteor,
        st.status_kind != ids.status.damage_fly_roll,
    ensures
        spec_leave_stop(ids, st).motion == (MotionStep::Change {
            wall_start: st.motion_kind == ids.motion_wall_damage,
            via_callback: st.status_kind == ids.status.damage_fly && st.has_motion_callback,
            then: AfterMotion::FlyRate,
        }),
        !spec_leave_stop(ids, st).reset_rate,
{
}

/// Law: in the tumble status, a motion change is followed by the roll handling: the roll
/// angle is set and the speed-up skips frames, unless the camera follows a finishing hit,
/// when the speed-up scales the rate instead.
pub proof fn lemma_tumble_motion_rolls(ids: DamageIds, st: LeaveStopState)
    requires
        st.proceed,
        st.status_kind == ids.status.damage_fly_roll,
        spec_leave_stop(ids, st).motion_kind != ids.motion_invalid,
    ensures
        spec_leave_stop(ids, st).motion == (MotionStep::Change {
            wall_start: spec_leave_stop(ids, st).motion_kind == ids.motion_wall_damage,
            via_callback: st.status_kind == ids.status.damage_fly && st.has_motion_callback,
            then: AfterMotion::Roll {
                set_angle: !st.finish_camera,
                speed_up: if st.finish_camera { SpeedUpMode::SetRate } else { SpeedUpMode::SetFrame },
            },
        }),
{
}

/// Law: in any other status a motion change is followed by nothing more.
pub proof fn lemma_other_status_motion_plain(ids: DamageIds, st: LeaveStopState)
    requires
        st.proceed,
        spec_leave_stop(ids, st).motion_kind != ids.motion_invalid,
        st.status_kind != ids.status.damage_fly_roll,
        st.status_kind != ids.status.damage_air,
        st.status_kind != ids.status.damage_fly,
        st.status_kind != ids.status.damage_fly_meteor,
    ensures
        spec_leave_stop(ids, st).motion == (MotionStep::Change {
            wall_start: spec_leave_stop(ids, st).motion_kind == ids.motion_wall_damage,
            via_callback: false,
            then: AfterMotion::Plain,
        }),
        !spec_leave_stop(ids, st).reset_rate,
{
}

/// Law: an "invalid" motion is not changed to; then a knockback or meteor fighter that is
/// not piercing has its motion rate reset to 1, and no other.
pub proof fn lemma_invalid_motion_skipped(ids: DamageIds, st: LeaveStopState)
    requires
        st.proceed,
        spec_leave_stop(ids, st).motion_kind == ids.motion_invalid,
    ensures
        spec_leave_stop(ids, st).motion == MotionStep::Skip,
        spec_leave_stop(ids, st).reset_rate == ((st.status_kind == ids.status.damage_fly
            || st.status_kind == ids.status.damage_fly_meteor) && !st.pierce),
{
}

/// Law: the facing when hitlag ends: with no reserved hit direction nothing changes; a hit
/// from the front (or straight on) makes the fighter face it; a hit from behind turns the
/// fighter around, except that tumbling and meteor-launched fighters face the hit and a
/// knocked-out fighter only has the direction cleared.
pub proof fn lemma_leave_stop_facing(ids: DamageIds, st: LeaveStopState)
    requires
        st.proceed,
    ensures
        st.lr_relation == LrRelation::Unset ==> spec_leave_stop(ids, st).lr == LrAction::Keep,
        st.lr_relation == LrRelation::SameSide ==> spec_leave_stop(ids, st).lr == LrAction::Face,
        st.lr_relation == LrRelation::OppositeSide && (st.status_kind == ids.status.damage_fly_roll
            || st.status_kind == ids.status.damage_fly_meteor) ==> spec_leave_stop(ids, st).lr == LrAction::Face,
        st.lr_relation == LrRelation::OppositeSide && st.status_kind != ids.status.damage_fly_roll
            && st.status_kind != ids.status.damage_fly_meteor && !st.knockout
            ==> spec_leave_stop(ids, st).lr == LrAction::TurnAround,
        st.lr_relation == LrRelation::OppositeSide && st.status_kind != ids.status.damage_fly_roll
            && st.status_kind != ids.status.damage_fly_meteor && st.knockout
            ==> spec_leave_stop(ids, st).lr == LrAction::ClearOnly,
{
}


/// Law: ASDI is refused in Smash 64 mode, in the wall, ceiling and floor bounce statuses,
/// right after being thrown, and for a spike that launched a grounded fighter into the air;
/// in every other case it applies.
pub proof fn lemma_asdi_exceptions(ids: DamageIds, st: AsdiState)
    ensures
        st.smash64_mode ==> !asdi_applies(ids, st),
        st.status_kind == ids.status.damage_fly_reflect_lr ==> !asdi_applies(ids, st),
        st.status_kind == ids.status.damage_fly_reflect_u ==> !asdi_applies(ids, st),
        st.status_kind == ids.status.damage_fly_reflect_d ==> !asdi_applies(ids, st),
        st.prev_status_kind == ids.status.thrown ==> !asdi_applies(ids, st),
        st.prev_situation == ids.situation.ground && st.situation == ids.situation.air && st.is_spike
            ==> !asdi_applies(ids, st),
        !st.smash64_mode && st.status_kind != ids.status.damage_fly_reflect_lr
            && st.status_kind != ids.status.damage_fly_reflect_u
            && st.status_kind != ids.status.damage_fly_reflect_d
            && st.prev_status_kind != ids.status.thrown && !st.is_spike ==> asdi_applies(ids, st),
        !st.smash64_mode && st.status_kind != ids.status.damage_fly_reflect_lr
            && st.status_kind != ids.status.damage_fly_reflect_u
            && st.status_kind != ids.status.damage_fly_reflect_d
            && st.prev_status_kind != ids.status.thrown && st.prev_situation != ids.situation.ground
            ==> asdi_applies(ids, st),
{
}

/// Law: a hit without reaction frames ends the reaction at once and leaves the "launched in
/// the air" flag alone; a hit with reaction frames sets that flag exactly when the fighter is
/// in the air; only the two paralyzing attributes grant paralysis immunity.
pub proof fn lemma_init_common_decisions(ids: DamageIds, reaction_frame: i32, situation: i32, attr: u64)
    ensures
        reaction_frame <= 0 ==> spec_init_common(ids, reaction_frame, situation, attr).end_reaction
            && spec_init_common(ids, reaction_frame, situation, attr).fly_air is None,
        reaction_frame > 0 ==> !spec_init_common(ids, reaction_frame, situation, attr).end_reaction
            && spec_init_common(ids, reaction_frame, situation, attr).fly_air == Some(situation == ids.situation.air),
        spec_init_common(ids, reaction_frame, situation, attr).paralyze
            <==> (attr == ids.attr_paralyze || attr == ids.attr_paralyze_ghost),
{
}

/// Law: the second pick of a hit height lies among the heights and differs from the first
/// one; it is the first height moved on by the random draw plus one, modulo the number of
/// heights.
pub proof fn lemma_rerolled_height_wraps(rand_val: int, height: int, term: int)
    requires
        0 <= height < term,
        0 <= rand_val < term - 1,
    ensures
        0 <= spec_rerolled_height(rand_val, height, term) < term,
        spec_rerolled_height(rand_val, height, term) != height,
        spec_rerolled_height(rand_val, height, term) == (rand_val + 1 + height) % term,
{
    let h = rand_val + 1 + height;
    if h >= term {
        vstd::arithmetic::div_mod::lemma_mod_add_multiples_vanish(h - term, term);
        vstd::arithmetic::div_mod::lemma_small_mod((h - term) as nat, term as nat);
    } else {
        vstd::arithmetic::div_mod::lemma_small_mod(h as nat, term as nat);
    }
}

/// Law: the knockback status checks its shared routine, then (out of hitlag only) wall,
/// ceiling and floor bounces, in that order.
pub proof fn lemma_damage_fly_check_order()
    ensures
        damage_fly_checks(true) == seq![FlyCheck::DamageFlyCommon],
        damage_fly_checks(false) == seq![FlyCheck::DamageFlyCommon, FlyCheck::ReflectWall,
            FlyCheck::ReflectCeil, FlyCheck::ReflectFloor],
{
}

/// Law: the shared knockback routine always tries the three techs first; once hitstun has
/// ended it then tries a special, an item throw, a tether, an aerial, a footstool, a wall jump
/// and a double jump; the status's own check comes last, and only while not stopping.
pub proof fn lemma_fly_common_check_order(end_reaction: bool, stopping: bool)
    ensures
        fly_common_checks(end_reaction, stopping).len() == 3 + (if end_reaction { 7int } else { 0 })
            + (if stopping { 0int } else { 1 }),
        fly_common_checks(end_reaction, stopping)[0] == FlyCommonCheck::PassiveWallJump,
        fly_common_checks(end_reaction, stopping)[1] == FlyCommonCheck::PassiveWall,
        fly_common_checks(end_reaction, stopping)[2] == FlyCommonCheck::PassiveCeil,
        end_reaction ==> fly_common_checks(end_reaction, stopping).subrange(3, 10) == seq![
            FlyCommonCheck::AirSpecial, FlyCommonCheck::AirItemThrow, FlyCommonCheck::AirLasso,
            FlyCommonCheck::AirAttack, FlyCommonCheck::AirTreadJump, FlyCommonCheck::AirWallJump,
            FlyCommonCheck::AirJumpAerial],
        !stopping ==> fly_common_checks(end_reaction, stopping).last() == FlyCommonCheck::DamageFlyUniq,
        stopping ==> !fly_common_checks(end_reaction, stopping).contains(FlyCommonCheck::DamageFlyUniq),
        !end_reaction ==> !fly_common_checks(end_reaction, stopping).contains(FlyCommonCheck::AirSpecial),
{
    let s = fly_common_checks(end_reaction, stopping);
    if end_reaction {
        assert(s.subrange(3, 10) =~= seq![
            FlyCommonCheck::AirSpecial, FlyCommonCheck::AirItemThrow, FlyCommonCheck::AirLasso,
            FlyCommonCheck::AirAttack, FlyCommonCheck::AirTreadJump, FlyCommonCheck::AirWallJump,
            FlyCommonCheck::AirJumpAerial]);
    }
    if stopping {
        assert forall|i: int| 0 <= i < s.len() implies s[i] != FlyCommonCheck::DamageFlyUniq by {}
    }
    if !end_reaction {
        assert forall|i: int| 0 <= i < s.len() implies s[i] != FlyCommonCheck::AirSpecial by {}
    }
}

/// Law: knockback smoke is never suppressed for another effect or when none is asked for;
/// in hitlag it is always suppressed; out of hitlag, in the first three knockback frames it
/// is not, and after them it is on odd frames only.
pub proof fn lemma_smoke_suppression(generate: bool, effect: u64, hitlag_frames: u64, fly_frame: i32)
    ensures
        effect != KB_SMOKE_EFFECT || !generate ==> !smoke_suppressed(generate, effect, hitlag_frames, fly_frame),
        effect == KB_SMOKE_EFFECT && generate && hitlag_frames != 0
            ==> smoke_suppressed(generate, effect, hitlag_frames, fly_frame),
        effect == KB_SMOKE_EFFECT && generate && hitlag_frames == 0 && fly_frame <= 3
            ==> !smoke_suppressed(generate, effect, hitlag_frames, fly_frame),
        effect == KB_SMOKE_EFFECT && generate && hitlag_frames == 0 && fly_frame > 3
            ==> (smoke_suppressed(generate, effect, hitlag_frames, fly_frame) <==> fly_frame % 2 == 1),
{
}

/// Law: the statuses whose unpierced motions play at a fixed rate of 1 are exactly the
/// knockback and meteor statuses.
pub proof fn lemma_fixed_motion_rate(ids: DamageIds, status: i32)
    ensures
        is_fly_or_meteor(ids, status) <==> (status == ids.status.damage_fly
            || status == ids.status.damage_fly_meteor),
{
}

} // verus!
