use vstd::prelude::*;
use crate::agent::{Agent, Script, StatusLine, StatusScript};

verus! {

/// When a Gordo dies, its owner's Gordo re-catch count is reset if the owner is King Dedede.
pub fn dead_end(owner_kind: i32, dedede_kind: i32) -> (reset_recatch: bool)
    ensures
        reset_recatch == (owner_kind == dedede_kind),
{
    owner_kind == dedede_kind
}

/// Registers the end script of the Gordo's dead status.
pub fn install(agent: &mut Agent, gordo_dead: i32)
    ensures
        final(agent).status_scripts@ == old(agent).status_scripts@.push(
            StatusScript { line: StatusLine::End, status: gordo_dead, script: Script::GordoDeadEnd }),
        final(agent).line_scripts@ == old(agent).line_scripts@,
        final(agent).name@ == old(agent).name@,
        final(agent).installed == old(agent).installed,
{
    agent.status(StatusLine::End, gordo_dead, Script::GordoDeadEnd);
}

} // verus!
