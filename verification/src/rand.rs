//! A small deterministic random source.  The scheduler only needs one
//! operation: a uniform draw below a bound.  The generator is a xorshift
//! step, stated exactly in specification so that callers can pin down
//! every value the scheduler derives from it.

use vstd::prelude::*;

verus! {

/// The seed used when a caller hands in zero, which xorshift cannot accept
/// (zero is a fixed point of the step function).
pub const RAND_DEFAULT_SEED: u64 = 0x9E3779B97F4A7C15;

/// One xorshift step: the successor of a generator state.
pub open spec fn rand_step(s: u64) -> u64 {
    let a = s ^ (s << 13);
    let b = a ^ (a >> 7);
    b ^ (b << 17)
}

/// A pseudo-random source with a fully specified update function.
#[derive(Clone, Copy, Debug, PartialEq, Eq, Structural)]
pub struct RandSource {
    pub state: u64,
}

impl RandSource {
    /// Create a source from a seed; a zero seed is replaced by a fixed
    /// nonzero constant.
    pub fn new(seed: u64) -> (r: Self)
        ensures
            r.state == if seed == 0 { RAND_DEFAULT_SEED } else { seed },
    {
        if seed == 0 {
            RandSource { state: RAND_DEFAULT_SEED }
        } else {
            RandSource { state: seed }
        }
    }

    /// Draw a value below `bound`, advancing the generator by one step.
    pub fn below(&mut self, bound: u64) -> (r: u64)
        requires
            bound >= 1,
        ensures
            final(self).state == rand_step(old(self).state),
            r == rand_step(old(self).state) % bound,
            r < bound,
    {
        let s = self.state;
        let a = s ^ (s << 13);
        let b = a ^ (a >> 7);
        let next = b ^ (b << 17);
        self.state = next;
        next % bound
    }
}

} // verus!
