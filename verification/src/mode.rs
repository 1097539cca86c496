//! The editor's input-interpretation modes and the state that owns them.

use vstd::prelude::*;

verus! {

/// The current input-interpretation context.  `Normal` is the initial mode;
/// `Save`, `SaveAndQuit` and `Quit` are transient: they are acted on and
/// collapsed back to a stable mode (or end the session) within one dispatch
/// cycle.
#[derive(Clone, Copy, Debug, PartialEq, Eq, Structural)]
pub enum MODE {
    Normal,
    Insert,
    Visual,
    Command,
    Quit,
    Save,
    SaveAndQuit,
    Search,
}

/// Authoritative mode holder, together with the session's read-only flag.
#[derive(Debug)]
pub struct State {
    mode: MODE,
    is_read_only: bool,
}

impl State {
    pub fn change_mode(&mut self, new_mode: MODE)
        ensures
            final(self).mode_spec() == new_mode,
            final(self).read_only_spec() == old(self).read_only_spec(),
    {
        self.mode = new_mode;
    }

    pub fn check_mode(&self) -> (m: MODE)
        ensures
            m == self.mode_spec(),
    {
        self.mode
    }

    pub fn set_read_only(&mut self, flg: bool)
        ensures
            final(self).read_only_spec() == flg,
            final(self).mode_spec() == old(self).mode_spec(),
    {
        self.is_read_only = flg;
    }

    pub fn get_read_only(&self) -> (flg: bool)
        ensures
            flg == self.read_only_spec(),
    {
        self.is_read_only
    }

    pub fn new() -> (s: State)
        ensures
            s.mode_spec() == MODE::Normal,
            !s.read_only_spec(),
    {
        State { mode: MODE::Normal, is_read_only: false }
    }

    /// The mode currently in force.
    pub closed spec fn mode_spec(&self) -> MODE {
        self.mode
    }

    /// Whether the session refuses edits.
    pub closed spec fn read_only_spec(&self) -> bool {
        self.is_read_only
    }

    pub fn mode_manager(&self) {
    }
}

} // verus!
