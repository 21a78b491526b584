//! Decision logic of fighter status scripts: which ground correction, ledge grab,
//! cancel, knockback or effect step a fighter takes, given what the game reports.

pub mod ids;
pub mod lists;
pub mod ground;
pub mod damage;
pub mod lucario;
pub mod fastfall;
pub mod kirby;
pub mod sonic;
pub mod zelda;
pub mod dedede;
pub mod agent;
pub mod phantom;
pub mod ryu;
