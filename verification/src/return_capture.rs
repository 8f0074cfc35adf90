//! A callable block built around an exclusively held counter.
//!
//! The block advances a mutable counter by a fixed delta on every invocation
//! and returns the counter's new value. The counter is behind the block's
//! exclusive access: while the block exists, every update goes through it,
//! one whole delta step per call, so no interleaving can split or reorder an
//! update. The delta is captured by shared reference and never changes.
//! Because invocation mutates captured state, the block supports mutate-call
//! and consume-call but not read-call.

use vstd::prelude::*;

use crate::protocol::{CallMut, CallOnce};
use crate::protocol::state_after_calls;

verus! {

/// A callable value that accumulates: an exclusively held counter advanced
/// by a shared-referenced delta on each invocation.
pub struct ReturnCaptureBlock<'a> {
    /// The counter the block holds exclusive access to; only invocations
    /// may change it while the block exists.
    pub counter: u32,
    /// The captured shared-reference binding to the step size.
    pub delta: &'a u32,
}

impl<'a> ReturnCaptureBlock<'a> {
    /// Build the block around a starting counter and a referenced delta.
    pub fn new(counter: u32, delta: &'a u32) -> (block: ReturnCaptureBlock<'a>)
        ensures
            block.counter == counter,
            block.delta == delta,
    {
        ReturnCaptureBlock { counter, delta }
    }
}

impl<'a> CallOnce<()> for ReturnCaptureBlock<'a> {
    type Output = u32;

    open spec fn call_requires(self, arg: ()) -> bool {
        self.counter + *self.delta <= u32::MAX
    }

    open spec fn call_result(self, arg: ()) -> u32 {
        (self.counter + *self.delta) as u32
    }

    fn call_once(self, arg: ()) -> (r: u32) {
        self.counter + *self.delta
    }
}

impl<'a> CallMut<()> for ReturnCaptureBlock<'a> {
    open spec fn post_state(self, arg: ()) -> ReturnCaptureBlock<'a> {
        ReturnCaptureBlock { counter: (self.counter + *self.delta) as u32, delta: self.delta }
    }

    fn call_mut(&mut self, arg: ()) -> (r: u32) {
        self.counter = self.counter + *self.delta;
        self.counter
    }
}

/// Exclusivity law: across a run of `n` invocations, the counter advances by
/// exactly one whole delta per call — after `n` calls it reads the start
/// value plus `n` deltas, strictly above the start whenever the delta is
/// positive — and the delta binding itself never changes.
pub proof fn lemma_counter_advances_by_delta<'a>(block: ReturnCaptureBlock<'a>, n: nat)
    requires
        block.counter + n * (*block.delta) <= u32::MAX,
    ensures
        state_after_calls(block, (), n).counter == block.counter + n * (*block.delta),
        state_after_calls(block, (), n).delta == block.delta,
        n > 0 && *block.delta > 0 ==> state_after_calls(block, (), n).counter > block.counter,
    decreases n,
{
    let d = *block.delta as int;
    if n > 0 {
        let m = (n - 1) as nat;
        assert(m * d + d == n * d) by (nonlinear_arith)
            requires n == m + 1;
        assert(n > 0 && d > 0 ==> n * d > 0) by (nonlinear_arith);
        lemma_counter_advances_by_delta(block, m);
    }
}

} // verus!
