//! The three-mode invocation protocol shared by every callable block.
//!
//! The three traits mirror the three receiver capabilities an invocation can
//! demand, from most to least general:
//!
//! - [`CallOnce`]: consume-call. Takes full ownership of the block, so any
//!   owned captures may be destroyed; the block is unusable afterwards.
//! - [`CallMut`]: mutate-call. Takes exclusive access; may read and update the
//!   block's own captured state, and may be repeated.
//! - [`Call`]: read-call. Takes shared access; must leave all captured state
//!   unchanged, and may be repeated, even from several readers at once.
//!
//! Every block supports consume-call; a block that never consumes its captures
//! also supports mutate-call; a block that never mutates them also supports
//! read-call. A block that must destroy an owned capture implements
//! [`CallOnce`] alone, so a second invocation is rejected by the type system
//! rather than detected at run time.
//!
//! All three modes return the same value for the same block state and
//! argument: each mode's `ensures` names the single spec function
//! [`CallOnce::call_result`], so agreement between modes holds by
//! construction rather than by a separate law.

use vstd::prelude::*;

verus! {

/// Consume-call: the most general invocation mode, supported by every block.
pub trait CallOnce<Arg>: Sized {
    /// What an invocation returns; contracts speak of its view.
    type Output: View;

    /// The inputs on which the block may be invoked. Blocks constrain this
    /// only where machine arithmetic would otherwise overflow.
    spec fn call_requires(self, arg: Arg) -> bool;

    /// The value that an invocation of this block with this argument
    /// returns, in every mode.
    spec fn call_result(self, arg: Arg) -> <Self::Output as View>::V;

    /// Invoke the block, giving up ownership of it and of all its captures.
    fn call_once(self, arg: Arg) -> (r: Self::Output)
        requires
            self.call_requires(arg),
        ensures
            r@ == self.call_result(arg),
    ;
}

/// Mutate-call: repeatable invocation through exclusive access, for blocks
/// whose invocation never consumes an owned capture.
pub trait CallMut<Arg>: CallOnce<Arg> {
    /// The block's own state after one invocation with this argument.
    spec fn post_state(self, arg: Arg) -> Self;

    /// Invoke the block through exclusive access. The result is the same one
    /// consume-call would return from the starting state, and the new state
    /// is exactly one [`CallMut::post_state`] step: nothing else about the
    /// block changes.
    fn call_mut(&mut self, arg: Arg) -> (r: Self::Output)
        requires
            old(self).call_requires(arg),
        ensures
            r@ == old(self).call_result(arg),
            *final(self) == old(self).post_state(arg),
    ;
}

/// Read-call: repeatable invocation through shared access, for blocks whose
/// invocation never mutates any captured state.
pub trait Call<Arg>: CallMut<Arg> {
    /// Invoke the block through shared access, leaving it untouched.
    fn call(&self, arg: Arg) -> (r: Self::Output)
        requires
            self.call_requires(arg),
        ensures
            r@ == self.call_result(arg),
    ;

    /// A read-call-supporting block is side-effect-free in every mode: even
    /// its mutate-call leaves the block exactly as it was.
    proof fn call_preserves_state(self, arg: Arg)
        ensures
            self.post_state(arg) == self,
    ;
}

/// The block state reached after `n` repeated invocations with the same
/// argument, each applied through [`CallMut::post_state`].
pub open spec fn state_after_calls<Arg, T: CallMut<Arg>>(block: T, arg: Arg, n: nat) -> T
    decreases n,
{
    if n == 0 {
        block
    } else {
        state_after_calls(block, arg, (n - 1) as nat).post_state(arg)
    }
}

/// Idempotence law: invoking a read-call-supporting block any number of
/// times leaves the block unchanged, and every one of those invocations
/// returns the same value.
pub proof fn lemma_read_calls_are_pure<Arg, T: Call<Arg>>(block: T, arg: Arg, n: nat)
    ensures
        state_after_calls(block, arg, n) == block,
        state_after_calls(block, arg, n).call_result(arg) == block.call_result(arg),
    decreases n,
{
    if n > 0 {
        lemma_read_calls_are_pure::<Arg, T>(block, arg, (n - 1) as nat);
        block.call_preserves_state(arg);
    }
}

} // verus!
