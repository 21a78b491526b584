use vstd::prelude::*;
use crate::ids::StatusKinds;
use crate::zelda::ZeldaIds;
use crate::agent::{Agent, LineScript, Script, StatusLine};

verus! {

/// What the Phantom's hit rule does on a frame.
#[derive(Clone, Copy, Debug, PartialEq, Eq, Structural)]
pub struct PhantomHitPlan {
    /// The Phantom landed a hit: mark it on Zelda.
    pub mark_hit: bool,
    /// The Phantom was reflected: clear its inflictions and force it into its attack.
    pub reflected: bool,
    /// The Phantom was stopped without landing a clean hit: put it on cooldown.
    pub disable: bool,
}

/// A Phantom that is stopped (destroyed) without having landed a hit goes on cooldown.
pub fn phantom_callback(hit: bool, reflected: bool, stopped: bool, hit_marked: bool) -> (r: PhantomHitPlan)
    ensures
        r.mark_hit == hit,
        r.reflected == (!hit && reflected),
        r.disable == (stopped && !(hit_marked || hit)),
{
    PhantomHitPlan { mark_hit: hit, reflected: !hit && reflected, disable: stopped && !(hit_marked || hit) }
}

/// What Zelda is doing while her Phantom builds up.
#[derive(Clone, Copy, Debug, PartialEq, Eq, Structural)]
pub struct BuildState {
    pub phantom_status: i32,
    pub phantom_changing: bool,
    pub phantom_situation: i32,
    /// Zelda's stick is held down past the drop-through threshold.
    pub stick_down: bool,
    pub zelda_status: i32,
    /// Zelda is in Ganondorf's side-special fall in the air.
    pub ganon_fall_air: bool,
    /// Zelda is in Ganondorf's side-special fall on the ground.
    pub ganon_fall_ground: bool,
    /// Zelda has hitstun frames left.
    pub hitstun_left: bool,
    pub hit_or_shield: bool,
    pub parried: bool,
    pub special_lw_input: bool,
}

/// What the Phantom does while it builds up.
#[derive(Clone, Copy, Debug, PartialEq, Eq, Structural)]
pub struct BuildPlan {
    /// The Phantom is released into its attack: flash on Zelda's hand.
    pub flash: bool,
    /// In the air, whether the Phantom falls through platforms.
    pub passable: Option<bool>,
    /// Release the Phantom early (Zelda's move hit and she pressed down special).
    pub release: bool,
}

/// Zelda's statuses in which she cannot act on her Phantom.
pub open spec fn busy_statuses(s: StatusKinds, ids: ZeldaIds) -> Seq<i32> {
    seq![s.guard, s.escape, s.escape, s.escape_f, s.escape_b, s.escape_air, s.escape_air_slide,
        s.catch, s.catch_dash, s.catch_turn, s.catch_pull, s.catch_wait, s.catch_attack, s.catch_cut,
        s.shouldered_donkey, s.catched_ridley, s.catched_reflet, s.catched_ganon, s.catched_air_ganon,
        s.catched_cut_ganon, s.damage, s.damage_air, s.damage_fall, s.damage_fly, s.damage_fly_roll,
        s.damage_fly_reflect_d, s.damage_fly_reflect_lr, s.damage_fly_reflect_u, s.damage_fall,
        s.special_lw, ids.zelda_special_lw_charge, ids.zelda_special_lw_end, s.throw]
}

pub open spec fn zelda_busy(ids: ZeldaIds, st: BuildState) -> bool {
    busy_statuses(ids.status, ids).contains(st.zelda_status) || st.ganon_fall_air || st.ganon_fall_ground || st.hitstun_left
}

/// While it builds up, the Phantom drops through platforms when Zelda holds down, and is
/// released early when a move of hers hits or is shielded and she presses down special,
/// unless she is guarding, dodging, grabbing, grabbed, hurt or charging it.
pub fn phantom_build_step(ids: &ZeldaIds, st: &BuildState) -> (r: BuildPlan)
    ensures
        r.flash == (st.phantom_status == ids.phantom_attack && st.phantom_changing),
        r.passable == (if st.phantom_status == ids.phantom_build && st.phantom_situation == ids.situation.air {
            Some(st.stick_down) } else { None }),
        r.release == (st.phantom_status == ids.phantom_build && !zelda_busy(*ids, *st)
            && st.hit_or_shield && !st.parried && st.special_lw_input),
{
    let flash = st.phantom_status == ids.phantom_attack && st.phantom_changing;
    if st.phantom_status != ids.phantom_build {
        return BuildPlan { flash, passable: None, release: false };
    }
    let passable = if st.phantom_situation == ids.situation.air { Some(st.stick_down) } else { None };
    let s = &ids.status;
    let busy = [s.guard, s.escape, s.escape, s.escape_f, s.escape_b, s.escape_air, s.escape_air_slide,
        s.catch, s.catch_dash, s.catch_turn, s.catch_pull, s.catch_wait, s.catch_attack, s.catch_cut,
        s.shouldered_donkey, s.catched_ridley, s.catched_reflet, s.catched_ganon, s.catched_air_ganon,
        s.catched_cut_ganon, s.damage, s.damage_air, s.damage_fall, s.damage_fly, s.damage_fly_roll,
        s.damage_fly_reflect_d, s.damage_fly_reflect_lr, s.damage_fly_reflect_u, s.damage_fall,
        s.special_lw, ids.zelda_special_lw_charge, ids.zelda_special_lw_end, s.throw];
    proof { assert(busy@ =~= busy_statuses(ids.status, *ids)); }
    if crate::lists::one_of(st.zelda_status, &busy) || st.ganon_fall_air || st.ganon_fall_ground || st.hitstun_left {
        return BuildPlan { flash, passable, release: false };
    }
    let release = st.hit_or_shield && !st.parried && st.special_lw_input;
    BuildPlan { flash, passable, release }
}

/// Registers the Phantom's per-frame script.
pub fn install(agent: &mut Agent)
    ensures
        final(agent).line_scripts@ == old(agent).line_scripts@.push(
            LineScript { line: StatusLine::Main, script: Script::PhantomFrame }),
        final(agent).status_scripts@ == old(agent).status_scripts@,
        final(agent).name@ == old(agent).name@,
        final(agent).installed == old(agent).installed,
{
    agent.on_line(StatusLine::Main, Script::PhantomFrame);
}


/// Law: Zelda cannot act on her Phantom exactly while she guards, dodges, grabs or throws,
/// is grabbed or carried, is hurt or launched (or has hitstun left), is in Ganondorf's
/// side-special fall, or is in her down special (start, charge or end).
pub proof fn lemma_zelda_busy_statuses(ids: ZeldaIds, st: BuildState)
    ensures
        zelda_busy(ids, st) <==> (
            st.zelda_status == ids.status.guard || st.zelda_status == ids.status.escape
            || st.zelda_status == ids.status.escape_f || st.zelda_status == ids.status.escape_b
            || st.zelda_status == ids.status.escape_air
            || st.zelda_status == ids.status.escape_air_slide
            || st.zelda_status == ids.status.catch || st.zelda_status == ids.status.catch_dash
            || st.zelda_status == ids.status.catch_turn
            || st.zelda_status == ids.status.catch_pull
            || st.zelda_status == ids.status.catch_wait
            || st.zelda_status == ids.status.catch_attack
            || st.zelda_status == ids.status.catch_cut
            || st.zelda_status == ids.status.shouldered_donkey
            || st.zelda_status == ids.status.catched_ridley
            || st.zelda_status == ids.status.catched_reflet
            || st.zelda_status == ids.status.catched_ganon
            || st.zelda_status == ids.status.catched_air_ganon
            || st.zelda_status == ids.status.catched_cut_ganon
            || st.zelda_status == ids.status.damage || st.zelda_status == ids.status.damage_air
            || st.zelda_status == ids.status.damage_fall
            || st.zelda_status == ids.status.damage_fly
            || st.zelda_status == ids.status.damage_fly_roll
            || st.zelda_status == ids.status.damage_fly_reflect_d
            || st.zelda_status == ids.status.damage_fly_reflect_lr
            || st.zelda_status == ids.status.damage_fly_reflect_u
            || st.zelda_status == ids.status.special_lw || st.zelda_status == ids.status.throw
            || st.zelda_status == ids.zelda_special_lw_charge
            || st.zelda_status == ids.zelda_special_lw_end
            || st.ganon_fall_air || st.ganon_fall_ground || st.hitstun_left),
{
}

} // verus!
