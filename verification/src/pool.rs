//! A counting permit pool: the bound on how many URLs are under probe at
//! once.

use vstd::prelude::*;

verus! {

/// What a unit of work asks of the pool.
pub enum PermitOp {
    /// A permit, before the unit starts.
    Acquire,
    /// To give its permit back, when the unit is done.
    Release,
}

/// The number of permits that are out after a unit asked for one: one more
/// than before if a permit was left, and as many as before if none was.
pub open spec fn after_acquire(capacity: nat, held: nat) -> nat {
    if held < capacity {
        held + 1
    } else {
        held
    }
}

/// The number of permits that are out after a unit gave one back: one less
/// than before, and none if none was out.
pub open spec fn after_release(held: nat) -> nat {
    if held > 0 {
        (held - 1) as nat
    } else {
        held
    }
}

/// The number of permits that are out after `ops`, one after another, were
/// asked of a pool of `capacity` permits from which none was out.
pub open spec fn held_after(capacity: nat, ops: Seq<PermitOp>) -> nat
    decreases ops.len(),
{
    if ops.len() == 0 {
        0
    } else {
        let before = held_after(capacity, ops.drop_last());
        match ops.last() {
            PermitOp::Acquire => after_acquire(capacity, before),
            PermitOp::Release => after_release(before),
        }
    }
}

/// Whatever is asked of a pool and in whatever order, no more permits are
/// out than the pool has.
pub proof fn law_permits_bounded(capacity: nat, ops: Seq<PermitOp>)
    ensures
        held_after(capacity, ops) <= capacity,
    decreases ops.len(),
{
    if ops.len() > 0 {
        law_permits_bounded(capacity, ops.drop_last());
    }
}

/// A pool of permits. A unit of work takes one before it starts and gives it
/// back when it is done.
#[derive(Clone, Copy, Debug)]
pub struct PermitPool {
    capacity: usize,
    held: usize,
}

impl PermitPool {
    #[verifier::type_invariant]
    spec fn within_capacity(&self) -> bool {
        self.held <= self.capacity
    }

    /// The number of permits the pool was made with.
    pub closed spec fn capacity(&self) -> nat {
        self.capacity as nat
    }

    /// The number of permits that are out.
    pub closed spec fn held(&self) -> nat {
        self.held as nat
    }

    /// A pool of `capacity` permits, none of them out.
    pub fn new(capacity: usize) -> (pool: PermitPool)
        ensures
            pool.capacity() == capacity,
            pool.held() == 0,
    {
        PermitPool { capacity, held: 0 }
    }

    /// The number of permits that are out, which is never more than the pool
    /// has.
    pub fn in_use(&self) -> (n: usize)
        ensures
            n == self.held(),
            n <= self.capacity(),
    {
        proof {
            use_type_invariant(self);
        }
        self.held
    }

    /// The number of permits that are left.
    pub fn available(&self) -> (n: usize)
        ensures
            n == self.capacity() - self.held(),
    {
        proof {
            use_type_invariant(self);
        }
        self.capacity - self.held
    }

    /// Hands out a permit if one is left, and says whether it did.
    pub fn try_acquire(&mut self) -> (granted: bool)
        ensures
            granted == (old(self).held() < old(self).capacity()),
            final(self).capacity() == old(self).capacity(),
            final(self).held() == after_acquire(old(self).capacity(), old(self).held()),
            final(self).held() <= final(self).capacity(),
    {
        proof {
            use_type_invariant(&*self);
        }
        if self.held < self.capacity {
            self.held = self.held + 1;
            true
        } else {
            false
        }
    }

    /// Takes a permit back if one is out, and says whether it did.
    pub fn release(&mut self) -> (returned: bool)
        ensures
            returned == (old(self).held() > 0),
            final(self).capacity() == old(self).capacity(),
            final(self).held() == after_release(old(self).held()),
            final(self).held() <= final(self).capacity(),
    {
        proof {
            use_type_invariant(&*self);
        }
        if self.held > 0 {
            self.held = self.held - 1;
            true
        } else {
            false
        }
    }
}

} // verus!
