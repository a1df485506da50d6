use vstd::prelude::*;

use crate::error::TX_WAIT_FOREVER;

verus! {

/// How long a blocking call may suspend its caller.
#[derive(Clone, Copy, Debug, PartialEq, Eq, Structural)]
pub enum WaitOption {
    /// Block until the call can complete.
    WaitForever,
    /// Never block: fail at once if the call cannot complete.
    NoWait,
    /// Block for at most this many ticks.
    WaitFor(u32),
}

/// The kernel's encoding of a wait option.
pub open spec fn wait_ticks(w: WaitOption) -> u32 {
    match w {
        WaitOption::WaitForever => TX_WAIT_FOREVER,
        WaitOption::NoWait => 0,
        WaitOption::WaitFor(t) => t,
    }
}

impl WaitOption {
    /// The tick count handed to the kernel for this option.
    pub fn as_ticks(&self) -> (r: u32)
        ensures
            r == wait_ticks(*self),
    {
        match self {
            WaitOption::WaitForever => TX_WAIT_FOREVER,
            WaitOption::NoWait => 0,
            WaitOption::WaitFor(t) => *t,
        }
    }

    /// Whether the caller may be suspended at all.
    pub fn may_block(&self) -> (r: bool)
        ensures
            r == (wait_ticks(*self) != 0),
    {
        self.as_ticks() != 0
    }
}

} // verus!
