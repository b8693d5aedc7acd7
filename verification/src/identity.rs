//! The process-wide allocator that tags each worker instance with a unique
//! identity at creation time.

use vstd::prelude::*;

verus! {

/// A monotonically increasing counter that hands out one identity per
/// call. Identities come out in strictly increasing order with no value
/// skipped, so no two worker instances ever observe the same identity.
///
/// The allocator itself is used from the worker-creation path only; the
/// supervisor that creates workers serializes its calls.
pub struct IdentityAllocator {
    next_value: usize,
    history: Ghost<Seq<usize>>,
}

impl IdentityAllocator {
    /// The identity the next call will hand out.
    pub closed spec fn next(&self) -> nat {
        self.next_value as nat
    }

    /// Every identity handed out so far, in allocation order.
    pub closed spec fn handed_out(&self) -> Seq<usize> {
        self.history@
    }

    /// The identities handed out so far are strictly increasing in
    /// allocation order, and all lie below the counter's current value.
    pub closed spec fn wf(&self) -> bool {
        &&& forall|k: int|
            0 <= k < self.history@.len() ==> self.history@[k] < self.next_value
        &&& forall|k: int, l: int|
            0 <= k < l < self.history@.len() ==> self.history@[k] < self.history@[l]
    }

    /// A fresh allocator: nothing handed out yet, and the first identity
    /// handed out will be 0.
    pub fn new() -> (alloc: Self)
        ensures
            alloc.wf(),
            alloc.next() == 0,
            alloc.handed_out() == Seq::<usize>::empty(),
    {
        IdentityAllocator { next_value: 0, history: Ghost(Seq::empty()) }
    }

    /// The identity the next call of `next_identity` will hand out.
    pub fn upcoming_identity(&self) -> (v: usize)
        ensures
            v == self.next(),
    {
        self.next_value
    }

    /// Hands out the next identity: exactly the counter's current value,
    /// distinct from every identity handed out before, and the counter
    /// moves up by exactly 1, so no value is duplicated or skipped.
    pub fn next_identity(&mut self) -> (identity: usize)
        requires
            old(self).wf(),
            old(self).next() < usize::MAX,
        ensures
            final(self).wf(),
            identity == old(self).next(),
            final(self).next() == old(self).next() + 1,
            final(self).handed_out() == old(self).handed_out().push(identity),
    {
        let identity = self.next_value;
        self.next_value = self.next_value + 1;
        proof {
            self.history@ = self.history@.push(identity);
        }
        identity
    }
}

/// Two distinct worker instances never report the same identity: any two
/// identities handed out by one allocator at different points in its
/// history differ.
pub proof fn lemma_identities_distinct(alloc: IdentityAllocator, i: int, j: int)
    requires
        alloc.wf(),
        0 <= i < alloc.handed_out().len(),
        0 <= j < alloc.handed_out().len(),
        i != j,
    ensures
        alloc.handed_out()[i] != alloc.handed_out()[j],
{
    if i < j {
        assert(alloc.handed_out()[i] < alloc.handed_out()[j]);
    } else {
        assert(alloc.handed_out()[j] < alloc.handed_out()[i]);
    }
}

} // verus!
