use vstd::prelude::*;
use crate::ids::{Situations, StatusKinds};
use crate::agent::{Agent, LineScript, Script, StatusLine};

verus! {

/// The game's ids that Sonic's frame rules compare against.
pub struct SonicIds {
    pub situation: Situations,
    pub status: StatusKinds,
    pub sonic_special_s_turn: i32,
    pub sonic_spin_jump: i32,
    pub sonic_special_n_hit: i32,
    pub sonic_special_n_rebound: i32,
    pub sonic_special_n_fail: i32,
    pub sonic_special_s_dash: i32,
    pub sonic_special_hi_jump: i32,
}

/// Jumping during the spin dash's turn becomes a spin jump.
pub fn sonic_spindash_jump_waveland(ids: &SonicIds, status: i32, jump_input: bool) -> (r: Option<i32>)
    ensures
        r == (if status == ids.sonic_special_s_turn && jump_input { Some(ids.sonic_spin_jump) } else { None }),
{
    if status == ids.sonic_special_s_turn && jump_input {
        Some(ids.sonic_spin_jump)
    } else {
        None
    }
}

/// What the game reports for the up-special freefall rule.
#[derive(Clone, Copy, Debug, PartialEq, Eq, Structural)]
pub struct FreefallState {
    pub changing: bool,
    pub situation: i32,
    pub status: i32,
    pub prev_status: i32,
    /// The "next up special freefalls" flag.
    pub flag: bool,
    pub enable_cancel: bool,
}

/// What the up-special freefall rule does.
#[derive(Clone, Copy, Debug, PartialEq, Eq, Structural)]
pub struct FreefallPlan {
    /// The value written to the freefall flag, if any.
    pub set_flag: Option<bool>,
    /// Set the special-fall speeds and change into special fall.
    pub freefall: bool,
}

/// The fighter touches down, reaches a ledge, dies, respawns or lands, as a status changes.
pub open spec fn resets_airtime(ids: SonicIds, st: FreefallState) -> bool {
    st.changing && (st.situation == ids.situation.ground || st.situation == ids.situation.cliff
        || seq![ids.status.rebirth, ids.status.dead, ids.status.landing].contains(st.status))
}

pub open spec fn flag_after(plan: FreefallPlan, flag: bool) -> bool {
    match plan.set_flag {
        Some(b) => b,
        None => flag,
    }
}

pub open spec fn spec_freefall(ids: SonicIds, st: FreefallState) -> FreefallPlan {
    let set_flag = if st.changing && st.prev_status == ids.sonic_special_hi_jump { Some(true) }
        else if resets_airtime(ids, st) { Some(false) } else { None };
    let flag = match set_flag {
        Some(b) => b,
        None => st.flag,
    };
    FreefallPlan {
        set_flag,
        freefall: st.status == ids.sonic_special_hi_jump && st.situation == ids.situation.air
            && flag && st.enable_cancel,
    }
}

/// The up special freefalls after one use per airtime: leaving it arms the flag, touching
/// down clears it, and an armed up special ends in special fall once it may be cancelled.
pub fn up_special_freefall(ids: &SonicIds, st: &FreefallState) -> (r: FreefallPlan)
    ensures
        r == spec_freefall(*ids, *st),
        resets_airtime(*ids, *st) && st.prev_status != ids.sonic_special_hi_jump ==> !flag_after(r, st.flag),
        st.changing && st.prev_status == ids.sonic_special_hi_jump ==> flag_after(r, st.flag),
        !resets_airtime(*ids, *st) ==> (st.flag ==> flag_after(r, st.flag)),
{
    let s = &ids.status;
    let mut flag = st.flag;
    let mut set_flag: Option<bool> = None;
    let list = [s.rebirth, s.dead, s.landing];
    proof { assert(list@ =~= seq![s.rebirth, s.dead, s.landing]); }
    if st.changing && (st.situation == ids.situation.ground || st.situation == ids.situation.cliff
        || crate::lists::one_of(st.status, &list)) {
        flag = false;
        set_flag = Some(false);
    }
    if st.prev_status == ids.sonic_special_hi_jump && st.changing {
        flag = true;
        set_flag = Some(true);
    }
    let freefall = st.status == ids.sonic_special_hi_jump && st.situation == ids.situation.air
        && flag && st.enable_cancel;
    FreefallPlan { set_flag, freefall }
}

/// The frame `st` with the freefall flag the previous frames left.
pub open spec fn with_flag(st: FreefallState, flag: bool) -> FreefallState {
    FreefallState {
        changing: st.changing,
        situation: st.situation,
        status: st.status,
        prev_status: st.prev_status,
        flag,
        enable_cancel: st.enable_cancel,
    }
}

/// The freefall flag after running the rule on each of `frames` in turn, starting from `flag`.
pub open spec fn flag_through(ids: SonicIds, flag: bool, frames: Seq<FreefallState>) -> bool
    decreases frames.len(),
{
    if frames.len() == 0 {
        flag
    } else {
        let st = with_flag(frames[0], flag);
        flag_through(ids, flag_after(spec_freefall(ids, st), flag), frames.drop_first())
    }
}

/// Law: once armed, the freefall flag stays armed through any frames in which the fighter
/// neither touches down, reaches a ledge, dies, respawns nor lands; so the next up special of
/// that airtime ends in special fall as soon as it may be cancelled.
pub proof fn lemma_armed_until_touchdown(ids: SonicIds, frames: Seq<FreefallState>, next: FreefallState)
    requires
        forall|i: int| 0 <= i < frames.len() ==> !resets_airtime(ids, #[trigger] frames[i]),
        !resets_airtime(ids, next),
        next.status == ids.sonic_special_hi_jump,
        next.situation == ids.situation.air,
        next.enable_cancel,
    ensures
        flag_through(ids, true, frames),
        spec_freefall(ids, with_flag(next, flag_through(ids, true, frames))).freefall,
    decreases frames.len(),
{
    if frames.len() > 0 {
        let st = with_flag(frames[0], true);
        assert(!resets_airtime(ids, frames[0]));
        assert(!resets_airtime(ids, st));
        assert(flag_after(spec_freefall(ids, st), true));
        let rest = frames.drop_first();
        assert forall|i: int| 0 <= i < rest.len() implies !resets_airtime(ids, #[trigger] rest[i]) by {
            assert(rest[i] == frames[i + 1]);
        }
        lemma_armed_until_touchdown(ids, rest, next);
    }
}

/// The specials that may fast-fall.
pub open spec fn fastfall_statuses(ids: SonicIds) -> Seq<i32> {
    seq![ids.status.special_s, ids.sonic_special_n_hit, ids.sonic_special_n_rebound,
        ids.sonic_special_n_fail, ids.sonic_special_s_dash, ids.sonic_special_hi_jump]
}

/// Whether the game's dive check runs: in the air, out of hitlag, in a special that may fast-fall.
pub fn fastfall_specials(ids: &SonicIds, in_hitlag: bool, changing: bool, status: i32, situation: i32) -> (r: bool)
    ensures
        r == (!in_hitlag && !changing && fastfall_statuses(*ids).contains(status) && situation == ids.situation.air),
{
    let list = [ids.status.special_s, ids.sonic_special_n_hit, ids.sonic_special_n_rebound,
        ids.sonic_special_n_fail, ids.sonic_special_s_dash, ids.sonic_special_hi_jump];
    proof { assert(list@ =~= fastfall_statuses(*ids)); }
    !in_hitlag && !changing && crate::lists::one_of(status, &list) && situation == ids.situation.air
}

/// Registers Sonic's per-frame script.
pub fn install(agent: &mut Agent)
    ensures
        final(agent).line_scripts@ == old(agent).line_scripts@.push(
            LineScript { line: StatusLine::Main, script: Script::SonicFrame }),
        final(agent).status_scripts@ == old(agent).status_scripts@,
        final(agent).name@ == old(agent).name@,
        final(agent).installed == old(agent).installed,
{
    agent.on_line(StatusLine::Main, Script::SonicFrame);
}


/// Law: the airtime resets exactly on a status change while grounded, at a ledge, or into
/// respawn, death or landing.
pub proof fn lemma_airtime_resets(ids: SonicIds, st: FreefallState)
    ensures
        resets_airtime(ids, st) <==> st.changing && (st.situation == ids.situation.ground
            || st.situation == ids.situation.cliff || st.status == ids.status.rebirth
            || st.status == ids.status.dead || st.status == ids.status.landing),
{
}

/// Law: leaving the up special arms the flag (even when touching down at once), touching down
/// otherwise clears it, and nothing else writes it; an armed up special in the air ends in
/// special fall exactly when it may be cancelled.
pub proof fn lemma_freefall_flag_writes(ids: SonicIds, st: FreefallState)
    ensures
        st.changing && st.prev_status == ids.sonic_special_hi_jump
            ==> spec_freefall(ids, st).set_flag == Some(true),
        resets_airtime(ids, st) && st.prev_status != ids.sonic_special_hi_jump
            ==> spec_freefall(ids, st).set_flag == Some(false),
        !resets_airtime(ids, st) && !(st.changing && st.prev_status == ids.sonic_special_hi_jump)
            ==> spec_freefall(ids, st).set_flag is None,
        spec_freefall(ids, st).freefall <==> (st.status == ids.sonic_special_hi_jump
            && st.situation == ids.situation.air && st.enable_cancel
            && flag_after(spec_freefall(ids, st), st.flag)),
{
}

/// Law: Sonic's specials that may fast-fall are the side special, the homing attack's hit,
/// rebound and miss, the spin dash and the up special's spring jump, and no other status.
pub proof fn lemma_sonic_fastfall_statuses(ids: SonicIds, status: i32)
    ensures
        fastfall_statuses(ids).contains(status) <==> (status == ids.status.special_s
            || status == ids.sonic_special_n_hit || status == ids.sonic_special_n_rebound
            || status == ids.sonic_special_n_fail || status == ids.sonic_special_s_dash
            || status == ids.sonic_special_hi_jump),
{
}

} // verus!
