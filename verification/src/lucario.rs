use vstd::prelude::*;
use crate::ids::{Situations, StatusKinds};
use crate::agent::{Agent, Script, StatusLine, StatusScript};

verus! {

/// The game's ids that Lucario's down special compares against or hands on.
pub struct LucarioIds {
    pub situation: Situations,
    pub status: StatusKinds,
    pub correct_ground: i32,
    pub correct_air: i32,
    pub kinetic_motion: i32,
    pub kinetic_motion_air: i32,
}

/// The command inputs (category 1) of this frame.
#[derive(Clone, Copy, Debug, PartialEq, Eq, Structural)]
pub struct CommandFlags {
    pub special_n: bool,
    pub special_s: bool,
    pub special_hi: bool,
    pub special_lw: bool,
    pub catch: bool,
    pub attack_s4: bool,
    pub attack_hi4: bool,
    pub attack_lw4: bool,
    pub attack_s3: bool,
    pub attack_hi3: bool,
    pub attack_lw3: bool,
    pub attack_n: bool,
}

/// What the game reports when Lucario may cancel the down special on hit.
#[derive(Clone, Copy, Debug, PartialEq, Eq, Structural)]
pub struct HitCancelState {
    pub enable_cancel: bool,
    pub in_hitlag: bool,
    /// Aura meter burnout.
    pub burnout: bool,
    /// The move has hit and may be cancelled.
    pub hit_cancel: bool,
    pub grounded: bool,
    /// An aerial attack is input.
    pub aerial: bool,
    pub cat: CommandFlags,
}

/// A status-change request: the status and the game's second request argument.
#[derive(Clone, Copy, Debug, PartialEq, Eq, Structural)]
pub struct StatusRequest {
    pub status: i32,
    pub flag: bool,
}

pub open spec fn request(status: i32, flag: bool) -> Option<StatusRequest> {
    Some(StatusRequest { status, flag })
}

/// The ground attacks in the order they are checked, with their request argument.
pub open spec fn spec_ground_cancel(s: StatusKinds, cat: CommandFlags) -> Option<StatusRequest> {
    if cat.catch { request(s.catch, true) }
    else if cat.attack_s4 { request(s.attack_s4_start, true) }
    else if cat.attack_hi4 { request(s.attack_hi4_start, true) }
    else if cat.attack_lw4 { request(s.attack_lw4_start, true) }
    else if cat.attack_s3 { request(s.attack_s3, false) }
    else if cat.attack_hi3 { request(s.attack_hi3, false) }
    else if cat.attack_lw3 { request(s.attack_lw3, false) }
    else if cat.attack_n { request(s.attack, true) }
    else { None }
}

/// The hit-cancel rule: once the move hits (and outside hitlag, burnout and the normal
/// cancel window) specials come first, then ground attacks on the ground or an aerial in the air.
pub open spec fn spec_check_cancel(ids: LucarioIds, st: HitCancelState) -> Option<StatusRequest> {
    let s = ids.status;
    if st.enable_cancel || st.in_hitlag || st.burnout || !st.hit_cancel { None }
    else if st.cat.special_n { request(s.special_n, false) }
    else if st.cat.special_s && !st.cat.special_lw { request(s.special_s, false) }
    else if st.cat.special_hi { request(s.special_hi, false) }
    else if st.grounded { spec_ground_cancel(s, st.cat) }
    else if st.aerial { request(s.attack_air, true) }
    else { None }
}

/// The ground and air statuses a hit cancel may request.
pub open spec fn cancel_targets(s: StatusKinds) -> Seq<i32> {
    seq![s.special_n, s.special_s, s.special_hi, s.catch, s.attack_s4_start, s.attack_hi4_start,
        s.attack_lw4_start, s.attack_s3, s.attack_hi3, s.attack_lw3, s.attack, s.attack_air]
}

/// The status that a hit cancel of the down special requests, if any.
pub fn special_lw_check_cancel(ids: &LucarioIds, st: &HitCancelState) -> (r: Option<StatusRequest>)
    ensures
        r == spec_check_cancel(*ids, *st),
        r is Some ==> st.hit_cancel && !st.burnout && !st.in_hitlag && !st.enable_cancel,
        r matches Some(q) ==> cancel_targets(ids.status).contains(q.status),
        !st.grounded ==> (r matches Some(q) ==> seq![ids.status.special_n, ids.status.special_s,
            ids.status.special_hi, ids.status.attack_air].contains(q.status)),
{
    let s = &ids.status;
    let c = &st.cat;
    proof {
        let t = cancel_targets(ids.status);
        assert(t[0] == s.special_n && t[1] == s.special_s && t[2] == s.special_hi && t[3] == s.catch);
        assert(t[4] == s.attack_s4_start && t[5] == s.attack_hi4_start && t[6] == s.attack_lw4_start);
        assert(t[7] == s.attack_s3 && t[8] == s.attack_hi3 && t[9] == s.attack_lw3 && t[10] == s.attack);
        assert(t[11] == s.attack_air);
    }
    if st.enable_cancel || st.in_hitlag || st.burnout || !st.hit_cancel {
        return None;
    }
    if c.special_n {
        return Some(StatusRequest { status: s.special_n, flag: false });
    }
    if c.special_s && !c.special_lw {
        return Some(StatusRequest { status: s.special_s, flag: false });
    }
    if c.special_hi {
        return Some(StatusRequest { status: s.special_hi, flag: false });
    }
    if st.grounded {
        if c.catch {
            Some(StatusRequest { status: s.catch, flag: true })
        } else if c.attack_s4 {
            Some(StatusRequest { status: s.attack_s4_start, flag: true })
        } else if c.attack_hi4 {
            Some(StatusRequest { status: s.attack_hi4_start, flag: true })
        } else if c.attack_lw4 {
            Some(StatusRequest { status: s.attack_lw4_start, flag: true })
        } else if c.attack_s3 {
            Some(StatusRequest { status: s.attack_s3, flag: false })
        } else if c.attack_hi3 {
            Some(StatusRequest { status: s.attack_hi3, flag: false })
        } else if c.attack_lw3 {
            Some(StatusRequest { status: s.attack_lw3, flag: false })
        } else if c.attack_n {
            Some(StatusRequest { status: s.attack, flag: true })
        } else {
            None
        }
    } else if st.aerial {
        Some(StatusRequest { status: s.attack_air, flag: true })
    } else {
        None
    }
}

/// Law: the hit cancel's priorities, input by input. Outside the cancel window (no normal
/// cancel, no hitlag, no burnout, the move has hit) nothing is requested. Inside it the
/// neutral special comes first, then the side special (unless the down special is also
/// input), then the up special; after those, on the ground, a grab, then the smash attacks
/// (side, up, down), then the tilts (side, up, down), then the jab, whatever else is held;
/// in the air an aerial. With none of these inputs nothing is requested.
pub proof fn lemma_hit_cancel_priorities(ids: LucarioIds, st: HitCancelState)
    ensures
        ({
            let window = !st.enable_cancel && !st.in_hitlag && !st.burnout && st.hit_cancel;
            let c = st.cat;
            let s = ids.status;
            let r = spec_check_cancel(ids, st);
            let no_special = !c.special_n && !(c.special_s && !c.special_lw) && !c.special_hi;
            let ground = window && no_special && st.grounded;
            &&& !window ==> r is None
            &&& window && c.special_n ==> r == Some(StatusRequest { status: s.special_n, flag: false })
            &&& window && !c.special_n && c.special_s && !c.special_lw
                ==> r == Some(StatusRequest { status: s.special_s, flag: false })
            &&& window && !c.special_n && !(c.special_s && !c.special_lw) && c.special_hi
                ==> r == Some(StatusRequest { status: s.special_hi, flag: false })
            &&& ground && c.catch ==> r == Some(StatusRequest { status: s.catch, flag: true })
            &&& ground && !c.catch && c.attack_s4
                ==> r == Some(StatusRequest { status: s.attack_s4_start, flag: true })
            &&& ground && !c.catch && !c.attack_s4 && c.attack_hi4
                ==> r == Some(StatusRequest { status: s.attack_hi4_start, flag: true })
            &&& ground && !c.catch && !c.attack_s4 && !c.attack_hi4 && c.attack_lw4
                ==> r == Some(StatusRequest { status: s.attack_lw4_start, flag: true })
            &&& ground && !c.catch && !c.attack_s4 && !c.attack_hi4 && !c.attack_lw4 && c.attack_s3
                ==> r == Some(StatusRequest { status: s.attack_s3, flag: false })
            &&& ground && !c.catch && !c.attack_s4 && !c.attack_hi4 && !c.attack_lw4 && !c.attack_s3
                && c.attack_hi3 ==> r == Some(StatusRequest { status: s.attack_hi3, flag: false })
            &&& ground && !c.catch && !c.attack_s4 && !c.attack_hi4 && !c.attack_lw4 && !c.attack_s3
                && !c.attack_hi3 && c.attack_lw3 ==> r == Some(StatusRequest { status: s.attack_lw3, flag: false })
            &&& ground && !c.catch && !c.attack_s4 && !c.attack_hi4 && !c.attack_lw4 && !c.attack_s3
                && !c.attack_hi3 && !c.attack_lw3 && c.attack_n
                ==> r == Some(StatusRequest { status: s.attack, flag: true })
            &&& ground && !c.catch && !c.attack_s4 && !c.attack_hi4 && !c.attack_lw4 && !c.attack_s3
                && !c.attack_hi3 && !c.attack_lw3 && !c.attack_n ==> r is None
            &&& window && no_special && !st.grounded && st.aerial
                ==> r == Some(StatusRequest { status: s.attack_air, flag: true })
            &&& window && no_special && !st.grounded && !st.aerial ==> r is None
        }),
{
}

// ---------------------------------------------------------------------------
// special_lw_set_kinetic
// ---------------------------------------------------------------------------

/// How the down special's situation, ground correction, motion and physics are set.
#[derive(Clone, Copy, Debug, PartialEq, Eq, Structural)]
pub struct KineticPlan {
    pub situation: i32,
    pub correct_kind: i32,
    pub motion: u64,
    /// Change the motion keeping its frame and rate (else start it at frame 0).
    pub keep_frame: bool,
    /// Turn the motion-inherit flag on.
    pub set_inherit: bool,
    pub kinetic_type: i32,
}

pub open spec fn spec_set_kinetic(ids: LucarioIds, situation: i32, inherit: bool, ground_mot: u64, air_mot: u64) -> KineticPlan {
    if situation != ids.situation.ground {
        KineticPlan {
            situation: ids.situation.air, correct_kind: ids.correct_air, motion: air_mot,
            keep_frame: inherit, set_inherit: !inherit, kinetic_type: ids.kinetic_motion_air,
        }
    } else {
        KineticPlan {
            situation: ids.situation.ground, correct_kind: ids.correct_ground, motion: ground_mot,
            keep_frame: inherit, set_inherit: !inherit, kinetic_type: ids.kinetic_motion,
        }
    }
}

/// Sets the down special up for the air or the ground: the first motion change starts at
/// frame 0 and turns the inherit flag on; later ones keep the frame.
pub fn special_lw_set_kinetic(ids: &LucarioIds, situation: i32, inherit: bool, ground_mot: u64, air_mot: u64) -> (r: KineticPlan)
    ensures
        r == spec_set_kinetic(*ids, situation, inherit, ground_mot, air_mot),
        r.keep_frame || r.set_inherit,
{
    if situation != ids.situation.ground {
        KineticPlan {
            situation: ids.situation.air, correct_kind: ids.correct_air, motion: air_mot,
            keep_frame: inherit, set_inherit: !inherit, kinetic_type: ids.kinetic_motion_air,
        }
    } else {
        KineticPlan {
            situation: ids.situation.ground, correct_kind: ids.correct_ground, motion: ground_mot,
            keep_frame: inherit, set_inherit: !inherit, kinetic_type: ids.kinetic_motion,
        }
    }
}

/// Law: after the status' first set-up (inherit flag off) the motion starts at frame 0 and the
/// flag is turned on, so every later set-up of the status keeps the motion's frame.
pub proof fn lemma_first_setup_then_inherit(ids: LucarioIds, s1: i32, s2: i32, ground_mot: u64, air_mot: u64)
    ensures
        !spec_set_kinetic(ids, s1, false, ground_mot, air_mot).keep_frame,
        spec_set_kinetic(ids, s1, false, ground_mot, air_mot).set_inherit,
        spec_set_kinetic(ids, s2, true, ground_mot, air_mot).keep_frame,
        !spec_set_kinetic(ids, s2, true, ground_mot, air_mot).set_inherit,
{
}

// ---------------------------------------------------------------------------
// special_lw_main / special_lw_main_loop / special_lw_end
// ---------------------------------------------------------------------------

/// Starting the down special in the air uses up the move until landing.
pub fn special_lw_main(ids: &LucarioIds, situation: i32) -> (disable: bool)
    ensures
        disable == (situation != ids.situation.ground),
{
    situation != ids.situation.ground
}

/// The first step of a frame of the down special.
#[derive(Clone, Copy, Debug, PartialEq, Eq, Structural)]
pub enum LwLoopStart {
    /// Landed: set the landing lag and change to the special landing status; the frame ends.
    Land { status: i32, landing_frame: i32 },
    /// The situation changed in the air: set the move up again; the frame ends.
    Reorient,
    /// Go on with the cancel checks.
    Continue,
}

/// The game checks (and the hit cancel) of a frame of the down special, run in order until one succeeds.
#[derive(Clone, Copy, Debug, PartialEq, Eq, Structural)]
pub enum LwCheck {
    WaitGroundCheck,
    AirFallCheck,
    HitCancel,
}

/// What a frame of the down special does.
#[derive(Debug, PartialEq, Eq)]
pub struct LwLoopPlan {
    pub start: LwLoopStart,
    pub checks: Vec<LwCheck>,
    /// The status to change to when the motion ends.
    pub end_status: i32,
}

pub open spec fn spec_lw_loop_start(ids: LucarioIds, changing: bool, situation_changed: bool, situation: i32) -> LwLoopStart {
    if !changing && situation_changed {
        if situation == ids.situation.ground {
            LwLoopStart::Land { status: ids.status.landing_fall_special, landing_frame: 10 }
        } else {
            LwLoopStart::Reorient
        }
    } else {
        LwLoopStart::Continue
    }
}

pub open spec fn spec_lw_checks(ids: LucarioIds, enable_cancel: bool, situation: i32) -> Seq<LwCheck> {
    if enable_cancel {
        if situation == ids.situation.ground { seq![LwCheck::WaitGroundCheck] }
        else if situation == ids.situation.air { seq![LwCheck::AirFallCheck] }
        else { Seq::empty() }
    } else {
        seq![LwCheck::HitCancel]
    }
}

/// The steps of a frame of the down special: landing, re-setup, cancels, and the status at its end.
pub fn special_lw_main_loop(ids: &LucarioIds, changing: bool, situation_changed: bool, enable_cancel: bool, situation: i32) -> (r: LwLoopPlan)
    ensures
        r.start == spec_lw_loop_start(*ids, changing, situation_changed, situation),
        r.checks@ == spec_lw_checks(*ids, enable_cancel, situation),
        r.end_status == (if situation == ids.situation.ground { ids.status.wait } else { ids.status.fall }),
{
    let start = if !changing && situation_changed {
        if situation == ids.situation.ground {
            LwLoopStart::Land { status: ids.status.landing_fall_special, landing_frame: 10 }
        } else {
            LwLoopStart::Reorient
        }
    } else {
        LwLoopStart::Continue
    };
    let mut checks: Vec<LwCheck> = Vec::new();
    if enable_cancel {
        if situation == ids.situation.ground {
            checks.push(LwCheck::WaitGroundCheck);
        } else if situation == ids.situation.air {
            checks.push(LwCheck::AirFallCheck);
        }
    } else {
        checks.push(LwCheck::HitCancel);
    }
    proof { assert(checks@ =~= spec_lw_checks(*ids, enable_cancel, situation)); }
    let end_status = if situation == ids.situation.ground { ids.status.wait } else { ids.status.fall };
    LwLoopPlan { start, checks, end_status }
}

/// The attacks that spend aura meter when they interrupt the down special early.
pub open spec fn meter_spending_statuses(s: StatusKinds) -> Seq<i32> {
    seq![s.attack, s.attack_air, s.attack_hi3, s.attack_hi4_start, s.attack_lw3, s.attack_lw4_start,
        s.attack_s3, s.attack_s4_start, s.catch, s.special_n, s.special_s, s.special_hi]
}

/// The cost of cancelling the down special into another move.
#[derive(Clone, Copy, Debug, PartialEq, Eq, Structural)]
pub struct MeterSpend {
    /// Frames during which the meter does not regenerate.
    pub regen_pause_frames: i32,
    /// Slow the fighter down (it is not on the ground).
    pub slow_down: bool,
}

/// Cancelling the down special before its end (and outside its cancel window) into an
/// attack, grab or other special spends a level of meter and pauses regeneration.
pub fn special_lw_end(ids: &LucarioIds, next_status: i32, motion_end: bool, enable_cancel: bool, situation: i32) -> (r: Option<MeterSpend>)
    ensures
        r == (if !motion_end && !enable_cancel && meter_spending_statuses(ids.status).contains(next_status) {
            Some(MeterSpend { regen_pause_frames: 120, slow_down: situation != ids.situation.ground })
        } else {
            None
        }),
{
    let s = &ids.status;
    let list = [s.attack, s.attack_air, s.attack_hi3, s.attack_hi4_start, s.attack_lw3, s.attack_lw4_start,
        s.attack_s3, s.attack_s4_start, s.catch, s.special_n, s.special_s, s.special_hi];
    proof { assert(list@ =~= meter_spending_statuses(ids.status)); }
    if !motion_end && !enable_cancel && crate::lists::one_of(next_status, &list) {
        Some(MeterSpend { regen_pause_frames: 120, slow_down: situation != ids.situation.ground })
    } else {
        None
    }
}

/// The down special's scripts: pre, main, init and end.
pub open spec fn lucario_scripts(ids: LucarioIds) -> Seq<StatusScript> {
    let lw = ids.status.special_lw;
    seq![
        StatusScript { line: StatusLine::Pre, status: lw, script: Script::LucarioSpecialLwPre },
        StatusScript { line: StatusLine::Main, status: lw, script: Script::LucarioSpecialLwMain },
        StatusScript { line: StatusLine::Init, status: lw, script: Script::LucarioSpecialLwInit },
        StatusScript { line: StatusLine::End, status: lw, script: Script::LucarioSpecialLwEnd },
    ]
}

/// Registers the down special's scripts.
pub fn install(agent: &mut Agent, ids: &LucarioIds)
    ensures
        final(agent).status_scripts@ == old(agent).status_scripts@ + lucario_scripts(*ids),
        final(agent).line_scripts@ == old(agent).line_scripts@,
        final(agent).name@ == old(agent).name@,
        final(agent).installed == old(agent).installed,
{
    let lw = ids.status.special_lw;
    agent.status(StatusLine::Pre, lw, Script::LucarioSpecialLwPre);
    agent.status(StatusLine::Main, lw, Script::LucarioSpecialLwMain);
    agent.status(StatusLine::Init, lw, Script::LucarioSpecialLwInit);
    agent.status(StatusLine::End, lw, Script::LucarioSpecialLwEnd);
    assert(agent.status_scripts@ =~= old(agent).status_scripts@ + lucario_scripts(*ids));
}


/// Law: the down special is set up for the ground only in the ground situation, and for the
/// air in every other one, with the matching situation, correct kind, motion and physics.
pub proof fn lemma_set_kinetic_by_situation(ids: LucarioIds, situation: i32, inherit: bool, ground_mot: u64, air_mot: u64)
    ensures
        situation == ids.situation.ground ==> {
            let p = spec_set_kinetic(ids, situation, inherit, ground_mot, air_mot);
            p.situation == ids.situation.ground && p.correct_kind == ids.correct_ground
                && p.motion == ground_mot && p.kinetic_type == ids.kinetic_motion
        },
        situation != ids.situation.ground ==> {
            let p = spec_set_kinetic(ids, situation, inherit, ground_mot, air_mot);
            p.situation == ids.situation.air && p.correct_kind == ids.correct_air
                && p.motion == air_mot && p.kinetic_type == ids.kinetic_motion_air
        },
{
}

/// Law: a frame of the down special lands (ten frames of special landing lag) when the
/// situation changes to the ground outside a status change, sets the move up again when it
/// changes to anything else, and otherwise goes on; it then runs the hit cancel outside the
/// cancel window, and inside it the ground or air check of its situation.
pub proof fn lemma_lw_loop_steps(ids: LucarioIds, changing: bool, situation_changed: bool, enable_cancel: bool, situation: i32)
    ensures
        !changing && situation_changed && situation == ids.situation.ground
            ==> spec_lw_loop_start(ids, changing, situation_changed, situation)
                == (LwLoopStart::Land { status: ids.status.landing_fall_special, landing_frame: 10 }),
        !changing && situation_changed && situation != ids.situation.ground
            ==> spec_lw_loop_start(ids, changing, situation_changed, situation) == LwLoopStart::Reorient,
        changing || !situation_changed
            ==> spec_lw_loop_start(ids, changing, situation_changed, situation) == LwLoopStart::Continue,
        !enable_cancel ==> spec_lw_checks(ids, enable_cancel, situation) == seq![LwCheck::HitCancel],
        enable_cancel && situation == ids.situation.ground
            ==> spec_lw_checks(ids, enable_cancel, situation) == seq![LwCheck::WaitGroundCheck],
        enable_cancel && situation != ids.situation.ground && situation == ids.situation.air
            ==> spec_lw_checks(ids, enable_cancel, situation) == seq![LwCheck::AirFallCheck],
        enable_cancel && situation != ids.situation.ground && situation != ids.situation.air
            ==> spec_lw_checks(ids, enable_cancel, situation).len() == 0,
{
}

/// Law: interrupting the down special with a jab, an aerial, a tilt, a smash attack, a grab or
/// a neutral, side or up special spends meter; nothing else does.
pub proof fn lemma_meter_spending_moves(ids: LucarioIds, next_status: i32)
    ensures
        meter_spending_statuses(ids.status).contains(next_status) <==> (
            next_status == ids.status.attack || next_status == ids.status.attack_air
            || next_status == ids.status.attack_hi3 || next_status == ids.status.attack_hi4_start
            || next_status == ids.status.attack_lw3 || next_status == ids.status.attack_lw4_start
            || next_status == ids.status.attack_s3 || next_status == ids.status.attack_s4_start
            || next_status == ids.status.catch || next_status == ids.status.special_n
            || next_status == ids.status.special_s || next_status == ids.status.special_hi),
{
}

/// Law: the pre, main, init and end scripts of the down special are registered, in that order.
pub proof fn lemma_lucario_script_lines(ids: LucarioIds)
    ensures
        lucario_scripts(ids).len() == 4,
        forall|i: int| 0 <= i < 4 ==> (#[trigger] lucario_scripts(ids)[i]).status == ids.status.special_lw,
        lucario_scripts(ids)[0].line == StatusLine::Pre && lucario_scripts(ids)[0].script == Script::LucarioSpecialLwPre,
        lucario_scripts(ids)[1].line == StatusLine::Main && lucario_scripts(ids)[1].script == Script::LucarioSpecialLwMain,
        lucario_scripts(ids)[2].line == StatusLine::Init && lucario_scripts(ids)[2].script == Script::LucarioSpecialLwInit,
        lucario_scripts(ids)[3].line == StatusLine::End && lucario_scripts(ids)[3].script == Script::LucarioSpecialLwEnd,
{
}

} // verus!
