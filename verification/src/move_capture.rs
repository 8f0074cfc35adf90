//! A callable block that captures by ownership transfer.
//!
//! The block owns a name moved into it at construction; the original variable
//! is gone. Each invocation additionally borrows a message for the duration
//! of that one call and renders the owned name combined with it. The owned
//! capture is never mutated, so the block supports all three modes.

use vstd::prelude::*;
use vstd::string::StringExecFns;

use crate::protocol::{Call, CallMut, CallOnce};

verus! {

/// The rendering an invocation produces: the captured name, a separator,
/// then the call-time message.
pub open spec fn rendered(name: Seq<char>, message: Seq<char>) -> Seq<char> {
    name + ", "@ + message
}

/// A callable value owning one capture: a name transferred at construction.
pub struct MoveCaptureBlock {
    /// The owned binding: the block is the sole owner of the name.
    pub name: String,
}

impl MoveCaptureBlock {
    /// Capture `name` by move; the caller's binding is consumed.
    pub fn new(name: String) -> (block: MoveCaptureBlock)
        ensures
            block.name == name,
    {
        MoveCaptureBlock { name }
    }
}

impl<'a> CallOnce<&'a str> for MoveCaptureBlock {
    type Output = String;

    open spec fn call_requires(self, arg: &'a str) -> bool {
        true
    }

    open spec fn call_result(self, arg: &'a str) -> Seq<char> {
        rendered(self.name@, arg@)
    }

    fn call_once(self, arg: &'a str) -> (r: String) {
        self.name.concat(", ").concat(arg)
    }
}

impl<'a> CallMut<&'a str> for MoveCaptureBlock {
    open spec fn post_state(self, arg: &'a str) -> MoveCaptureBlock {
        self
    }

    fn call_mut(&mut self, arg: &'a str) -> (r: String) {
        self.name.clone().concat(", ").concat(arg)
    }
}

impl<'a> Call<&'a str> for MoveCaptureBlock {
    fn call(&self, arg: &'a str) -> (r: String) {
        self.name.clone().concat(", ").concat(arg)
    }

    proof fn call_preserves_state(self, arg: &'a str) {
    }
}

/// Whatever message a call is given, the captured name survives the call
/// unchanged; successive calls with different messages all start from the
/// same block state.
pub proof fn lemma_name_survives_calls(block: MoveCaptureBlock, arg: &str)
    ensures
        block.post_state(arg) == block,
        block.post_state(arg).name == block.name,
{
    block.call_preserves_state(arg);
}

} // verus!
