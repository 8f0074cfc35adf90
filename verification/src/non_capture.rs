//! A callable block that captures nothing.
//!
//! With no captured state and no argument, every invocation in every mode
//! produces the same fixed text.

use vstd::prelude::*;

use crate::protocol::{Call, CallMut, CallOnce};
use crate::protocol::{lemma_read_calls_are_pure, state_after_calls};

verus! {

/// The text a capture-free block produces on every invocation.
pub open spec fn fixed_text() -> Seq<char> {
    "Hello"@
}

/// A callable value with no captured fields: its behavior is pure and fixed.
pub struct NonCaptureBlock {}

impl NonCaptureBlock {
    /// Build the block; there are no captures to resolve.
    pub fn new() -> (block: NonCaptureBlock)
        ensures
            block.call_result(()) == fixed_text(),
    {
        NonCaptureBlock {}
    }
}

impl CallOnce<()> for NonCaptureBlock {
    type Output = String;

    open spec fn call_requires(self, arg: ()) -> bool {
        true
    }

    open spec fn call_result(self, arg: ()) -> Seq<char> {
        fixed_text()
    }

    fn call_once(self, arg: ()) -> (r: String) {
        "Hello".to_owned()
    }
}

impl CallMut<()> for NonCaptureBlock {
    open spec fn post_state(self, arg: ()) -> NonCaptureBlock {
        self
    }

    fn call_mut(&mut self, arg: ()) -> (r: String) {
        "Hello".to_owned()
    }
}

impl Call<()> for NonCaptureBlock {
    fn call(&self, arg: ()) -> (r: String) {
        "Hello".to_owned()
    }

    proof fn call_preserves_state(self, arg: ()) {
    }
}

/// No-capture law: however many times the block is invoked, its state is
/// untouched (there is none to touch) and the result is still the fixed text.
pub proof fn lemma_fixed_output(block: NonCaptureBlock, n: nat)
    ensures
        state_after_calls(block, (), n) == block,
        state_after_calls(block, (), n).call_result(()) == fixed_text(),
{
    lemma_read_calls_are_pure::<(), NonCaptureBlock>(block, (), n);
}

} // verus!
