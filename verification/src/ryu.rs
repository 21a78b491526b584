use vstd::prelude::*;
use crate::agent::Agent;

verus! {

/// The Shinku Hadoken weapon agent, created and installed. The modules that register its
/// move and status scripts are not part of this library, so it carries none of them.
pub fn install() -> (r: Agent)
    ensures
        r.name@ == "ryu_shinkuhadoken"@,
        r.installed,
        r.status_scripts@.len() == 0,
        r.line_scripts@.len() == 0,
{
    let mut agent = Agent::new("ryu_shinkuhadoken");
    agent.install();
    agent
}

} // verus!
