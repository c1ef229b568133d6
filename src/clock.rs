//! The simulation clock.
use vstd::prelude::*;

verus! {

/// The number of ticks run so far.
#[derive(Debug, Clone, Copy, PartialEq, Eq, Structural)]
pub struct Clock {
    pub tick: usize,
}

impl Default for Clock {
    fn default() -> (r: Self)
        ensures
            r.tick == 0,
    {
        Clock { tick: 0 }
    }
}

} // verus!
