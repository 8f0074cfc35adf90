//! A callable block that captures by shared reference.
//!
//! The block holds a read-only reference to a text owned elsewhere; the
//! referent must outlive the block, which Rust's borrow discipline enforces.
//! Each invocation renders the referenced text without altering it, so the
//! block supports all three invocation modes.

use vstd::prelude::*;

use crate::protocol::{Call, CallMut, CallOnce};

verus! {

/// A callable value holding one shared-reference binding to a message.
pub struct CaptureMessageBlock<'a> {
    /// The captured binding: the block reads the message but never owns
    /// or mutates it.
    pub message: &'a String,
}

impl<'a> CaptureMessageBlock<'a> {
    /// Capture `message` by shared reference; the caller keeps ownership.
    pub fn new(message: &'a String) -> (block: CaptureMessageBlock<'a>)
        ensures
            block.message == message,
    {
        CaptureMessageBlock { message }
    }
}

impl<'a> CallOnce<()> for CaptureMessageBlock<'a> {
    type Output = String;

    open spec fn call_requires(self, arg: ()) -> bool {
        true
    }

    open spec fn call_result(self, arg: ()) -> Seq<char> {
        self.message@
    }

    fn call_once(self, arg: ()) -> (r: String) {
        self.message.clone()
    }
}

impl<'a> CallMut<()> for CaptureMessageBlock<'a> {
    open spec fn post_state(self, arg: ()) -> CaptureMessageBlock<'a> {
        self
    }

    fn call_mut(&mut self, arg: ()) -> (r: String) {
        self.message.clone()
    }
}

impl<'a> Call<()> for CaptureMessageBlock<'a> {
    fn call(&self, arg: ()) -> (r: String) {
        self.message.clone()
    }

    proof fn call_preserves_state(self, arg: ()) {
    }
}

} // verus!
