use vstd::prelude::*;

verus! {

/// A point in time of the machine's master clock, counted in ticks.
#[derive(Clone, Copy, Debug, PartialEq, Eq, Structural)]
pub struct MasterClockTick {
    pub ticks: u64,
}

impl Default for MasterClockTick {
    fn default() -> (tick: Self)
        ensures
            tick.ticks == 0,
    {
        MasterClockTick { ticks: 0 }
    }
}

} // verus!
