//! A trivial drone input source: a bot that walks forward.

use vstd::prelude::*;
use crate::net_structs::TicCmd;

verus! {

/// Generates tic commands for a drone client.
pub struct Bot {
    pub last_ticcmd: TicCmd,
}

impl Bot {
    /// A fresh bot with an all-zero command history.
    pub fn new() -> (r: Self)
        ensures
            r.last_ticcmd == crate::net_structs::ticcmd_zero(),
    {
        Bot { last_ticcmd: TicCmd::default() }
    }

    /// Reset bot-specific settings; the bot keeps no configuration yet.
    pub fn init(&mut self)
        ensures
            *final(self) == *old(self),
    {
    }

    /// Produce the bot's command for the next tic: walk straight
    /// ahead, leaving every other input of the kept command untouched.
    pub fn tick(&mut self) -> (r: TicCmd)
        ensures
            r == (TicCmd {
                forwardmove: 50,
                sidemove: 0,
                angleturn: 0,
                ..old(self).last_ticcmd
            }),
            r == final(self).last_ticcmd,
    {
        self.last_ticcmd.forwardmove = 50;
        self.last_ticcmd.sidemove = 0;
        self.last_ticcmd.angleturn = 0;
        self.last_ticcmd
    }
}

} // verus!
