//! The process-global state a worker touches: the miner gate, the
//! cancellation flag and the counters.

use vstd::prelude::*;

verus! {

/// One more, staying put at the top of the range.
pub open spec fn sat_inc(x: u64) -> u64 {
    if x < u64::MAX {
        (x + 1) as u64
    } else {
        x
    }
}

/// Process-global counters. Each bump saturates instead of wrapping.
#[derive(Clone, Copy, Debug, PartialEq, Eq, Structural)]
pub struct Counters {
    pub naka_mined_blocks: u64,
    pub naka_mined_tenures: u64,
    pub missed_tenures: u64,
}

impl Counters {
    pub fn bump_naka_mined_blocks(&mut self)
        ensures
            *final(self) == (Counters { naka_mined_blocks: sat_inc(old(self).naka_mined_blocks), ..*old(self) }),
    {
        if self.naka_mined_blocks < u64::MAX {
            self.naka_mined_blocks = self.naka_mined_blocks + 1;
        }
    }

    pub fn bump_naka_mined_tenures(&mut self)
        ensures
            *final(self) == (Counters { naka_mined_tenures: sat_inc(old(self).naka_mined_tenures), ..*old(self) }),
    {
        if self.naka_mined_tenures < u64::MAX {
            self.naka_mined_tenures = self.naka_mined_tenures + 1;
        }
    }

    pub fn bump_missed_tenures(&mut self)
        ensures
            *final(self) == (Counters { missed_tenures: sat_inc(old(self).missed_tenures), ..*old(self) }),
    {
        if self.missed_tenures < u64::MAX {
            self.missed_tenures = self.missed_tenures + 1;
        }
    }
}

/// Handle to global state: the flag that serializes workers, the shared
/// cancellation flag, the counters, and whether the relayer was asked
/// to re-decide after a fatal mining failure.
#[derive(Clone, Copy, Debug, PartialEq, Eq, Structural)]
pub struct Globals {
    /// True while an outgoing worker is being stopped; no worker mines
    /// while it is set.
    pub miner_blocked: bool,
    /// Cleared when the node shuts down; the signing coordinator
    /// consults it.
    pub should_keep_running: bool,
    pub counters: Counters,
    /// Set when a fatal mining failure asked the relayer to re-decide.
    pub initiative_raised: bool,
}

impl Globals {
    /// Block mining while an outgoing worker is stopped.
    pub fn block_miner(&mut self)
        ensures
            *final(self) == (Globals { miner_blocked: true, ..*old(self) }),
    {
        self.miner_blocked = true;
    }

    /// Let mining proceed again.
    pub fn unblock_miner(&mut self)
        ensures
            *final(self) == (Globals { miner_blocked: false, ..*old(self) }),
    {
        self.miner_blocked = false;
    }

    /// Ask the relayer to re-decide the next directive.
    pub fn raise_initiative(&mut self)
        ensures
            *final(self) == (Globals { initiative_raised: true, ..*old(self) }),
    {
        self.initiative_raised = true;
    }
}

} // verus!
