use vstd::prelude::*;
use crate::ids::{Situations, StatusKinds};
use crate::agent::{Agent, Script, StatusLine, StatusScript};

verus! {

/// The game's ids that Kirby's copy of Sora's magic compares against.
pub struct KirbyIds {
    pub situation: Situations,
    pub status: StatusKinds,
    pub trail_special_n1: i32,
    pub trail_special_n1_shoot: i32,
    pub trail_special_n1_end: i32,
    pub trail_special_n2: i32,
    pub trail_special_n3: i32,
}

/// How the thunder spell starts.
#[derive(Clone, Copy, Debug, PartialEq, Eq, Structural)]
pub struct N2MainPlan {
    /// Keep the gravity speed the hop had (read it before and restore it after).
    pub keep_gravity_speed: bool,
    /// On the ground: stop at ledges and stand still.
    pub ground_stop: bool,
    /// In the air: glide slowly without drift.
    pub air_glide: bool,
    /// In the air with much upward and little sideways speed: brake instead of gliding on.
    pub air_brake: bool,
}

/// The set-up of the thunder spell by situation.
pub fn special_n2_main(ids: &KirbyIds, hop: bool, situation: i32, brake_speed: bool) -> (r: N2MainPlan)
    ensures
        r == (N2MainPlan {
            keep_gravity_speed: hop,
            ground_stop: situation == ids.situation.ground,
            air_glide: situation == ids.situation.air,
            air_brake: situation == ids.situation.air && brake_speed,
        }),
{
    N2MainPlan {
        keep_gravity_speed: hop,
        ground_stop: situation == ids.situation.ground,
        air_glide: situation == ids.situation.air,
        air_brake: situation == ids.situation.air && brake_speed,
    }
}

/// The game checks that may end the thunder spell early, run in order until one succeeds.
#[derive(Clone, Copy, Debug, PartialEq, Eq, Structural)]
pub enum N2Check {
    WaitGroundCheck,
    AirFallCheck,
}

/// What a frame of the thunder spell does.
#[derive(Debug, PartialEq, Eq)]
pub struct N2LoopPlan {
    pub checks: Vec<N2Check>,
    /// The status to change to when the motion has ended.
    pub end_status: i32,
}

/// The checks of a frame of the thunder spell (the ground check only in the cancel window),
/// and the status it ends in.
pub fn special_n2_main_loop(ids: &KirbyIds, enable_cancel: bool, situation: i32) -> (r: N2LoopPlan)
    ensures
        r.checks@ == (if enable_cancel { seq![N2Check::WaitGroundCheck, N2Check::AirFallCheck] }
            else { seq![N2Check::AirFallCheck] }),
        r.end_status == (if situation == ids.situation.ground { ids.status.wait } else { ids.status.fall }),
{
    let mut checks: Vec<N2Check> = Vec::new();
    if enable_cancel {
        checks.push(N2Check::WaitGroundCheck);
    }
    checks.push(N2Check::AirFallCheck);
    proof {
        if enable_cancel {
            assert(checks@ =~= seq![N2Check::WaitGroundCheck, N2Check::AirFallCheck]);
        } else {
            assert(checks@ =~= seq![N2Check::AirFallCheck]);
        }
    }
    let end_status = if situation == ids.situation.ground { ids.status.wait } else { ids.status.fall };
    N2LoopPlan { checks, end_status }
}

/// What the thunder spell does on a frame of its loop.
#[derive(Clone, Copy, Debug, PartialEq, Eq, Structural)]
pub struct N2FramePlan {
    /// A shot was fired: clear the shot flag.
    pub clear_shot: bool,
    /// Fired in the air after a hop: push the fighter with the hop speed.
    pub hop_push: bool,
    /// Turn the move around.
    pub turn_around: bool,
}

/// A fired shot is consumed (pushing a hopping fighter in the air); from the fifth frame,
/// holding special with the stick pointing backward turns the move around.
pub fn special_n2_main_loop_function(
    ids: &KirbyIds,
    shot: bool,
    situation: i32,
    hop: bool,
    status: i32,
    status_frame: i32,
    special_held: bool,
    stick_backward: bool,
) -> (r: N2FramePlan)
    ensures
        r.clear_shot == shot,
        r.hop_push == (shot && situation == ids.situation.air && hop),
        r.turn_around == (status == ids.trail_special_n2 && status_frame >= 5 && special_held && stick_backward),
{
    N2FramePlan {
        clear_shot: shot,
        hop_push: shot && situation == ids.situation.air && hop,
        turn_around: status == ids.trail_special_n2 && status_frame >= 5 && special_held && stick_backward,
    }
}

/// The magic statuses whose end script is replaced.
#[derive(Clone, Copy, Debug, PartialEq, Eq, Structural)]
pub enum MagicEnd {
    N1,
    N1Shoot,
    N1End,
    N2,
    N3,
}

/// What ending a magic status does.
#[derive(Clone, Copy, Debug, PartialEq, Eq, Structural)]
pub struct MagicEndPlan {
    /// Forbid switching magic, stop any pending switch and start the magic timer with this value.
    pub lock_timer: Option<i32>,
    /// Remove the cloud of the third spell.
    pub remove_cloud: bool,
}

/// Whether ending this magic status goes on to the next stage of the same spell.
pub open spec fn continues_spell(ids: KirbyIds, which: MagicEnd, next_status: i32) -> bool {
    match which {
        MagicEnd::N1 => next_status == ids.trail_special_n1_shoot,
        MagicEnd::N1Shoot => next_status == ids.trail_special_n1_end,
        _ => false,
    }
}

/// Ending a magic move (except into the next stage of the same spell) locks magic switching
/// behind a timer, so that switching magic is tied to the timer alone.
pub fn special_n_end(ids: &KirbyIds, which: MagicEnd, next_status: i32, cooldown: i32) -> (r: MagicEndPlan)
    ensures
        r.lock_timer == (if continues_spell(*ids, which, next_status) { None } else { Some(cooldown) }),
        r.remove_cloud == (which == MagicEnd::N3),
{
    let continues = match which {
        MagicEnd::N1 => next_status == ids.trail_special_n1_shoot,
        MagicEnd::N1Shoot => next_status == ids.trail_special_n1_end,
        _ => false,
    };
    let remove_cloud = match which {
        MagicEnd::N3 => true,
        _ => false,
    };
    MagicEndPlan { lock_timer: if continues { None } else { Some(cooldown) }, remove_cloud }
}

/// The magic scripts: the thunder spell's pre and main, and the replaced end scripts.
pub open spec fn kirby_scripts(ids: KirbyIds) -> Seq<StatusScript> {
    seq![
        StatusScript { line: StatusLine::Pre, status: ids.trail_special_n2, script: Script::KirbyTrailSpecialN2Pre },
        StatusScript { line: StatusLine::Main, status: ids.trail_special_n2, script: Script::KirbyTrailSpecialN2Main },
        StatusScript { line: StatusLine::End, status: ids.trail_special_n1, script: Script::KirbyTrailSpecialN1End },
        StatusScript { line: StatusLine::End, status: ids.trail_special_n1_shoot, script: Script::KirbyTrailSpecialN1ShootEnd },
        StatusScript { line: StatusLine::End, status: ids.trail_special_n1_end, script: Script::KirbyTrailSpecialN1EndEnd },
        StatusScript { line: StatusLine::End, status: ids.trail_special_n2, script: Script::KirbyTrailSpecialN2End },
        StatusScript { line: StatusLine::End, status: ids.trail_special_n3, script: Script::KirbyTrailSpecialN3End },
    ]
}

/// Registers the magic scripts.
pub fn install(agent: &mut Agent, ids: &KirbyIds)
    ensures
        final(agent).status_scripts@ == old(agent).status_scripts@ + kirby_scripts(*ids),
        final(agent).line_scripts@ == old(agent).line_scripts@,
        final(agent).name@ == old(agent).name@,
        final(agent).installed == old(agent).installed,
{
    agent.status(StatusLine::Pre, ids.trail_special_n2, Script::KirbyTrailSpecialN2Pre);
    agent.status(StatusLine::Main, ids.trail_special_n2, Script::KirbyTrailSpecialN2Main);
    agent.status(StatusLine::End, ids.trail_special_n1, Script::KirbyTrailSpecialN1End);
    agent.status(StatusLine::End, ids.trail_special_n1_shoot, Script::KirbyTrailSpecialN1ShootEnd);
    agent.status(StatusLine::End, ids.trail_special_n1_end, Script::KirbyTrailSpecialN1EndEnd);
    agent.status(StatusLine::End, ids.trail_special_n2, Script::KirbyTrailSpecialN2End);
    agent.status(StatusLine::End, ids.trail_special_n3, Script::KirbyTrailSpecialN3End);
    assert(agent.status_scripts@ =~= old(agent).status_scripts@ + kirby_scripts(*ids));
}


/// Law: only the first spell's start going into its shot, and its shot going into its end,
/// continue the spell; every other ending of a magic status locks switching behind the timer.
pub proof fn lemma_spell_continuations(ids: KirbyIds, which: MagicEnd, next_status: i32)
    ensures
        which == MagicEnd::N1 ==> (continues_spell(ids, which, next_status)
            <==> next_status == ids.trail_special_n1_shoot),
        which == MagicEnd::N1Shoot ==> (continues_spell(ids, which, next_status)
            <==> next_status == ids.trail_special_n1_end),
        which == MagicEnd::N1End || which == MagicEnd::N2 || which == MagicEnd::N3
            ==> !continues_spell(ids, which, next_status),
{
}

/// Law: the thunder spell's pre and main scripts come first, then an end script for each
/// magic status: the first spell's start, shot and end, the thunder spell and the third spell.
pub proof fn lemma_kirby_script_lines(ids: KirbyIds)
    ensures
        kirby_scripts(ids).len() == 7,
        kirby_scripts(ids)[0] == (StatusScript { line: StatusLine::Pre, status: ids.trail_special_n2,
            script: Script::KirbyTrailSpecialN2Pre }),
        kirby_scripts(ids)[1] == (StatusScript { line: StatusLine::Main, status: ids.trail_special_n2,
            script: Script::KirbyTrailSpecialN2Main }),
        forall|i: int| 2 <= i < 7 ==> (#[trigger] kirby_scripts(ids)[i]).line == StatusLine::End,
        kirby_scripts(ids)[2].status == ids.trail_special_n1,
        kirby_scripts(ids)[3].status == ids.trail_special_n1_shoot,
        kirby_scripts(ids)[4].status == ids.trail_special_n1_end,
        kirby_scripts(ids)[5].status == ids.trail_special_n2,
        kirby_scripts(ids)[6].status == ids.trail_special_n3,
{
}

} // verus!
