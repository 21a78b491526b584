use vstd::prelude::*;

verus! {

/// The script slots of a status.
#[derive(Clone, Copy, Debug, PartialEq, Eq, Structural)]
pub enum StatusLine {
    Pre,
    Main,
    Init,
    End,
}

/// The scripts this library's decisions drive.
#[derive(Clone, Copy, Debug, PartialEq, Eq, Structural)]
pub enum Script {
    GordoDeadEnd,
    KirbyTrailSpecialN2Pre,
    KirbyTrailSpecialN2Main,
    KirbyTrailSpecialN1End,
    KirbyTrailSpecialN1ShootEnd,
    KirbyTrailSpecialN1EndEnd,
    KirbyTrailSpecialN2End,
    KirbyTrailSpecialN3End,
    LucarioSpecialLwPre,
    LucarioSpecialLwMain,
    LucarioSpecialLwInit,
    LucarioSpecialLwEnd,
    SonicFrame,
    ZeldaFrame,
    PhantomFrame,
}

/// A script registered for a slot of a status.
#[derive(Clone, Copy, Debug, PartialEq, Eq, Structural)]
pub struct StatusScript {
    pub line: StatusLine,
    pub status: i32,
    pub script: Script,
}

/// A script registered to run on every frame in a slot.
#[derive(Clone, Copy, Debug, PartialEq, Eq, Structural)]
pub struct LineScript {
    pub line: StatusLine,
    pub script: Script,
}

/// The scripts registered for a fighter or weapon, in order, and whether it was installed.
#[derive(Debug)]
pub struct Agent {
    pub name: String,
    pub status_scripts: Vec<StatusScript>,
    pub line_scripts: Vec<LineScript>,
    pub installed: bool,
}

impl Agent {
    /// A new agent with no scripts.
    pub fn new(name: &str) -> (r: Agent)
        ensures
            r.name@ == name@,
            r.status_scripts@.len() == 0,
            r.line_scripts@.len() == 0,
            !r.installed,
    {
        Agent { name: name.to_owned(), status_scripts: Vec::new(), line_scripts: Vec::new(), installed: false }
    }

    /// Registers `script` in slot `line` of `status`.
    pub fn status(&mut self, line: StatusLine, status: i32, script: Script)
        ensures
            final(self).status_scripts@ == old(self).status_scripts@.push(StatusScript { line, status, script }),
            final(self).line_scripts@ == old(self).line_scripts@,
            final(self).name@ == old(self).name@,
            final(self).installed == old(self).installed,
    {
        self.status_scripts.push(StatusScript { line, status, script });
    }

    /// Registers `script` to run on every frame in slot `line`.
    pub fn on_line(&mut self, line: StatusLine, script: Script)
        ensures
            final(self).line_scripts@ == old(self).line_scripts@.push(LineScript { line, script }),
            final(self).status_scripts@ == old(self).status_scripts@,
            final(self).name@ == old(self).name@,
            final(self).installed == old(self).installed,
    {
        self.line_scripts.push(LineScript { line, script });
    }

    /// Marks the agent installed.
    pub fn install(&mut self)
        ensures
            final(self).installed,
            final(self).status_scripts@ == old(self).status_scripts@,
            final(self).line_scripts@ == old(self).line_scripts@,
            final(self).name@ == old(self).name@,
    {
        self.installed = true;
    }
}

} // verus!
