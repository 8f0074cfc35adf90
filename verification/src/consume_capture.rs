//! A callable block that consumes its owned capture.
//!
//! The block owns an ordered sequence of integers. Its one permitted
//! invocation doubles every element and sums the results, surrendering the
//! sequence in the process. It therefore implements consume-call alone:
//! with the block moved into the call, a second invocation is not a run-time
//! failure but a use-after-move the type system rejects outright.

use vstd::prelude::*;

use crate::protocol::CallOnce;

verus! {

/// The sum of the first `n` elements of `s`, each doubled.
pub open spec fn doubled_sum_prefix(s: Seq<u32>, n: int) -> int
    decreases n,
{
    if n <= 0 {
        0
    } else {
        doubled_sum_prefix(s, n - 1) + 2 * s[n - 1]
    }
}

/// The x2 transform followed by summation over the whole sequence.
pub open spec fn doubled_sum(s: Seq<u32>) -> int {
    doubled_sum_prefix(s, s.len() as int)
}

/// Every element contributes a non-negative amount, so a longer prefix never
/// sums to less than a shorter one.
proof fn lemma_prefix_sum_monotonic(s: Seq<u32>, i: int, j: int)
    requires
        0 <= i <= j <= s.len(),
    ensures
        doubled_sum_prefix(s, i) <= doubled_sum_prefix(s, j),
    decreases j,
{
    if i < j {
        lemma_prefix_sum_monotonic(s, i, j - 1);
    }
}

/// A callable value owning a sequence it destroys on its single invocation.
pub struct ConsumeCaptureBlock {
    /// The owned binding: the sequence surrendered by the invocation.
    pub a: Vec<u32>,
}

impl ConsumeCaptureBlock {
    /// Capture the sequence by move; the caller's binding is consumed.
    pub fn new(a: Vec<u32>) -> (block: ConsumeCaptureBlock)
        ensures
            block.a == a,
    {
        ConsumeCaptureBlock { a }
    }
}

impl CallOnce<()> for ConsumeCaptureBlock {
    type Output = u32;

    open spec fn call_requires(self, arg: ()) -> bool {
        doubled_sum(self.a@) <= u32::MAX
    }

    open spec fn call_result(self, arg: ()) -> u32 {
        doubled_sum(self.a@) as u32
    }

    fn call_once(self, arg: ()) -> (r: u32) {
        let n = self.a.len();
        let mut acc: u32 = 0;
        let mut i: usize = 0;
        while i < n
            invariant
                n == self.a.len(),
                i <= n,
                acc == doubled_sum_prefix(self.a@, i as int),
                doubled_sum(self.a@) <= u32::MAX,
            decreases n - i,
        {
            proof {
                lemma_prefix_sum_monotonic(self.a@, i + 1, self.a@.len() as int);
            }
            acc = acc + 2 * self.a[i];
            i = i + 1;
        }
        acc
    }
}

} // verus!
