use vstd::prelude::*;
use crate::ids::{Situations, StatusKinds};
use crate::agent::{Agent, LineScript, Script, StatusLine};

verus! {

/// The game's ids that Zelda's and her Phantom's frame rules compare against.
pub struct ZeldaIds {
    pub situation: Situations,
    pub status: StatusKinds,
    pub zelda_special_s_loop: i32,
    pub zelda_special_s_end: i32,
    pub zelda_special_hi_3: i32,
    pub zelda_special_lw_charge: i32,
    pub zelda_special_lw_end: i32,
    pub phantom_build: i32,
    pub phantom_attack: i32,
    pub motion_special_n: u64,
}

/// Touching the ground at any point of the teleport counts as a grounded teleport.
pub fn teleport_tech(ids: &ZeldaIds, status: i32, grounded_teleport: bool, situation: i32) -> (mark: bool)
    ensures
        mark == (status == ids.status.special_hi && !grounded_teleport && situation == ids.situation.ground),
{
    status == ids.status.special_hi && !grounded_teleport && situation == ids.situation.ground
}

/// What the Phantom cancel rule does.
#[derive(Clone, Copy, Debug, PartialEq, Eq, Structural)]
pub struct PhantomCancel {
    /// The Phantom is sent forward (the cancel is not out of an aerial).
    pub forward: bool,
}

/// A move that hit or was shielded (not parried), out of hitlag and in its cancel window,
/// may be cancelled into the down special while no Phantom is out.
pub fn phantom_special_cancel(
    ids: &ZeldaIds,
    hit_or_shield: bool,
    parried: bool,
    in_hitlag: bool,
    cancel_frame: bool,
    special_lw_input: bool,
    phantom_exists: bool,
    status: i32,
) -> (r: Option<PhantomCancel>)
    ensures
        r == (if hit_or_shield && !parried && !in_hitlag && cancel_frame && special_lw_input && !phantom_exists {
            Some(PhantomCancel { forward: status != ids.status.attack_air })
        } else {
            None
        }),
{
    if hit_or_shield && !parried && !in_hitlag && cancel_frame {
        if special_lw_input && !phantom_exists {
            return Some(PhantomCancel { forward: status != ids.status.attack_air });
        }
    }
    None
}

/// Nayru's Love ends early when the situation changes before frame 55.
pub fn nayru_land_cancel(ids: &ZeldaIds, motion: u64, situation_changed: bool, before_frame_55: bool) -> (r: bool)
    ensures
        r == (motion == ids.motion_special_n && situation_changed && before_frame_55),
{
    motion == ids.motion_special_n && situation_changed && before_frame_55
}

/// Landing out of the end of Din's Fire: 7 frames of special landing lag.
#[derive(Clone, Copy, Debug, PartialEq, Eq, Structural)]
pub struct LandCancel {
    pub landing_frame: i32,
    pub status: i32,
}

/// Din's Fire's end lands into special landing when the fighter touches down from the air.
pub fn dins_fire_cancels(ids: &ZeldaIds, status: i32, situation: i32, prev_situation: i32) -> (r: Option<LandCancel>)
    ensures
        r == (if status == ids.zelda_special_s_end && situation == ids.situation.ground
            && prev_situation == ids.situation.air {
            Some(LandCancel { landing_frame: 7, status: ids.status.landing_fall_special })
        } else {
            None
        }),
{
    if status == ids.zelda_special_s_end && situation == ids.situation.ground && prev_situation == ids.situation.air {
        Some(LandCancel { landing_frame: 7, status: ids.status.landing_fall_special })
    } else {
        None
    }
}

// ---------------------------------------------------------------------------
// phantom_usability_effects
// ---------------------------------------------------------------------------

/// The handle value of a switched-off Phantom aura.
pub const AURA_DISABLED: i32 = -2;
/// The handle value that asks for the Phantom aura to be spawned.
pub const AURA_READY: i32 = -1;

/// What the Phantom cooldown effects do on a frame.
#[derive(Clone, Copy, Debug, PartialEq, Eq, Structural)]
pub enum AuraStep {
    /// Victory, defeat, entry or before "Go": switch the aura off and store `AURA_DISABLED`.
    Disable,
    /// The aura of a live Phantom is gone: store `AURA_READY`.
    Reset,
    /// Spawn the aura on Zelda and store its handle.
    Spawn,
    /// Nothing.
    Idle,
    /// The Phantom is gone: if `expire`, flash, switch the aura off, clear the Phantom's
    /// disable and hit flags and store `AURA_READY`; if `kill_arrow`, remove the Phantom's marker.
    PhantomGone { expire: bool, kill_arrow: bool },
}

/// What the game reports for the Phantom cooldown effects.
#[derive(Clone, Copy, Debug, PartialEq, Eq, Structural)]
pub struct AuraState {
    pub status: i32,
    pub ready_go: bool,
    /// The stored aura handle (or `AURA_DISABLED` / `AURA_READY`).
    pub handle: i32,
    pub phantom_exists: bool,
    /// The effect with the stored handle is alive.
    pub aura_alive: bool,
    /// The Phantom's marker effect is alive.
    pub arrow_alive: bool,
}

pub open spec fn spec_aura_step(ids: ZeldaIds, st: AuraState) -> AuraStep {
    let s = ids.status;
    if (seq![s.win, s.lose, s.entry].contains(st.status) || !st.ready_go) && st.handle >= 1 {
        AuraStep::Disable
    } else if st.phantom_exists {
        if !st.aura_alive && st.handle > AURA_READY {
            AuraStep::Reset
        } else if st.handle == AURA_READY {
            AuraStep::Spawn
        } else {
            AuraStep::Idle
        }
    } else {
        AuraStep::PhantomGone { expire: st.handle >= 0, kill_arrow: st.arrow_alive }
    }
}

/// The handle stored after a step, or `None` when it is the handle of a newly spawned aura.
pub open spec fn handle_after(step: AuraStep, handle: i32) -> Option<i32> {
    match step {
        AuraStep::Disable => Some(AURA_DISABLED),
        AuraStep::Reset => Some(AURA_READY),
        AuraStep::Spawn => None,
        AuraStep::Idle => Some(handle),
        AuraStep::PhantomGone { expire, .. } => Some(if expire { AURA_READY } else { handle }),
    }
}

/// The Phantom's cooldown aura: shown while a Phantom is out, flashed away when it is gone,
/// and switched off on the result screen.
pub fn phantom_usability_effects(ids: &ZeldaIds, st: &AuraState) -> (r: AuraStep)
    ensures
        r == spec_aura_step(*ids, *st),
        // an aura is only spawned from the ready state, with a Phantom out
        r == AuraStep::Spawn ==> st.handle == AURA_READY && st.phantom_exists,
        // a disabled aura stays disabled while the fighter is not on the result screen
        st.handle == AURA_DISABLED ==> handle_after(r, st.handle) == Some(AURA_DISABLED),
        // once the Phantom is gone, a live aura handle goes back to the ready state
        !st.phantom_exists && st.handle >= 1 && !(r == AuraStep::Disable) ==> handle_after(r, st.handle) == Some(AURA_READY),
{
    let s = &ids.status;
    let ending = [s.win, s.lose, s.entry];
    proof { assert(ending@ =~= seq![s.win, s.lose, s.entry]); }
    if (crate::lists::one_of(st.status, &ending) || !st.ready_go) && st.handle >= 1 {
        AuraStep::Disable
    } else if st.phantom_exists {
        if !st.aura_alive && st.handle > AURA_READY {
            AuraStep::Reset
        } else if st.handle == AURA_READY {
            AuraStep::Spawn
        } else {
            AuraStep::Idle
        }
    } else {
        AuraStep::PhantomGone { expire: st.handle >= 0, kill_arrow: st.arrow_alive }
    }
}

/// The specials that may fast-fall.
pub open spec fn fastfall_statuses(ids: ZeldaIds) -> Seq<i32> {
    seq![ids.status.special_n, ids.status.special_s, ids.status.special_lw, ids.zelda_special_s_loop,
        ids.zelda_special_s_end, ids.zelda_special_hi_3, ids.zelda_special_lw_charge, ids.zelda_special_lw_end]
}

/// Whether the game's dive check runs: in the air, out of hitlag, in a special that may fast-fall.
pub fn fastfall_specials(ids: &ZeldaIds, in_hitlag: bool, changing: bool, status: i32, situation: i32) -> (r: bool)
    ensures
        r == (!in_hitlag && !changing && fastfall_statuses(*ids).contains(status) && situation == ids.situation.air),
{
    let list = [ids.status.special_n, ids.status.special_s, ids.status.special_lw, ids.zelda_special_s_loop,
        ids.zelda_special_s_end, ids.zelda_special_hi_3, ids.zelda_special_lw_charge, ids.zelda_special_lw_end];
    proof { assert(list@ =~= fastfall_statuses(*ids)); }
    !in_hitlag && !changing && crate::lists::one_of(status, &list) && situation == ids.situation.air
}

/// Registers Zelda's per-frame script.
pub fn install(agent: &mut Agent)
    ensures
        final(agent).line_scripts@ == old(agent).line_scripts@.push(
            LineScript { line: StatusLine::Main, script: Script::ZeldaFrame }),
        final(agent).status_scripts@ == old(agent).status_scripts@,
        final(agent).name@ == old(agent).name@,
        final(agent).installed == old(agent).installed,
{
    agent.on_line(StatusLine::Main, Script::ZeldaFrame);
}


/// Law: on the result screen or entry, or before "Go", a live aura is switched off; otherwise,
/// with a Phantom out, a vanished aura is reset to the ready state and a ready aura is
/// spawned; once the Phantom is gone, its aura (if one was stored) flashes away and its
/// marker is removed if alive.
pub proof fn lemma_aura_steps(ids: ZeldaIds, st: AuraState)
    ensures
        (st.status == ids.status.win || st.status == ids.status.lose || st.status == ids.status.entry
            || !st.ready_go) && st.handle >= 1 ==> spec_aura_step(ids, st) == AuraStep::Disable,
        st.status != ids.status.win && st.status != ids.status.lose && st.status != ids.status.entry
            && st.ready_go && st.phantom_exists && !st.aura_alive && st.handle > AURA_READY
            ==> spec_aura_step(ids, st) == AuraStep::Reset,
        st.handle < 1 && st.phantom_exists && st.handle == AURA_READY
            ==> spec_aura_step(ids, st) == AuraStep::Spawn,
        st.handle < 1 && st.phantom_exists && st.handle != AURA_READY && (st.aura_alive || st.handle < AURA_READY)
            ==> spec_aura_step(ids, st) == AuraStep::Idle,
        st.handle < 1 && !st.phantom_exists ==> spec_aura_step(ids, st)
            == (AuraStep::PhantomGone { expire: st.handle == 0, kill_arrow: st.arrow_alive }),
        st.status != ids.status.win && st.status != ids.status.lose && st.status != ids.status.entry
            && st.ready_go && !st.phantom_exists ==> spec_aura_step(ids, st)
            == (AuraStep::PhantomGone { expire: st.handle >= 0, kill_arrow: st.arrow_alive }),
{
}

/// Law: Zelda's specials that may fast-fall are the neutral, side and down specials, Din's
/// Fire's loop and end, the teleport's last part and the Phantom's charge and release, and no
/// other status.
pub proof fn lemma_zelda_fastfall_statuses(ids: ZeldaIds, status: i32)
    ensures
        fastfall_statuses(ids).contains(status) <==> (status == ids.status.special_n
            || status == ids.status.special_s || status == ids.status.special_lw
            || status == ids.zelda_special_s_loop || status == ids.zelda_special_s_end
            || status == ids.zelda_special_hi_3 || status == ids.zelda_special_lw_charge
            || status == ids.zelda_special_lw_end),
{
}

} // verus!
