use vstd::prelude::*;

verus! {

/// The tick counter a script keeps in its key-value store.
#[derive(Clone, Copy, Debug, PartialEq, Eq, Structural)]
pub struct Counter {
    pub ticks: u64,
}

impl Default for Counter {
    fn default() -> (r: Counter)
        ensures
            r.ticks == 0,
    {
        Counter { ticks: 0 }
    }
}

impl Counter {
    /// Counts one more tick, staying at the largest count once there.
    pub fn tick(&mut self)
        ensures
            final(self).ticks == (if old(self).ticks == u64::MAX { u64::MAX } else { (old(self).ticks + 1) as u64 }),
    {
        self.ticks = self.ticks.saturating_add(1);
    }
}

} // verus!
