//! A forward-only walk over the indices of a native collection whose size
//! was read once, when the walk began.

use vstd::prelude::*;
use crate::handle::{ComPtr, RefOp, clone_op, release_op};

verus! {

/// What one step of a walk at position `pos` over `count` elements yields.
pub open spec fn step_yield(pos: nat, count: nat) -> Option<nat> {
    if pos < count {
        Some(pos)
    } else {
        None
    }
}

/// The position after one step of a walk at position `pos`.
pub open spec fn step_position(pos: nat, count: nat) -> nat {
    if pos < count {
        pos + 1
    } else {
        pos
    }
}

/// The position of a fresh walk over `count` elements after `calls` steps.
pub open spec fn position_after(count: nat, calls: nat) -> nat
    decreases calls,
{
    if calls == 0 {
        0
    } else {
        step_position(position_after(count, (calls - 1) as nat), count)
    }
}

/// Everything a fresh walk over `count` elements yields in `calls` steps.
pub open spec fn yields(count: nat, calls: nat) -> Seq<Option<nat>>
    decreases calls,
{
    if calls == 0 {
        Seq::empty()
    } else {
        let prev = (calls - 1) as nat;
        yields(count, prev).push(step_yield(position_after(count, prev), count))
    }
}

/// An index yielded by the cursor, as a mathematical value.
pub open spec fn index_of(r: Option<u32>) -> Option<nat> {
    match r {
        Some(i) => Some(i as nat),
        None => None,
    }
}

/// A walk over a collection of kind `T`. The cursor owns its own reference to
/// the collection, so it stays valid after the collection's first owner is
/// gone.
pub struct CollectionCursor<T> {
    collection: ComPtr<T>,
    curr: u32,
    count: u32,
}

impl<T> CollectionCursor<T> {
    /// The number of steps that have yielded an index.
    pub closed spec fn position(&self) -> nat {
        self.curr as nat
    }

    /// The number of elements, as read when the walk began.
    pub closed spec fn len(&self) -> nat {
        self.count as nat
    }

    /// The cursor's own reference to the collection.
    pub closed spec fn source(&self) -> Option<usize> {
        self.collection@
    }

    /// The cursor never passes the end.
    #[verifier::type_invariant]
    spec fn wf(&self) -> bool {
        self.curr <= self.count
    }

    /// Starts a walk over `collection`, which holds `count` elements. The
    /// caller performs the returned operation, which gives the cursor its own
    /// reference.
    pub fn new(collection: &ComPtr<T>, count: u32) -> (r: (CollectionCursor<T>, RefOp))
        ensures
            r.0.position() == 0,
            r.0.len() == count,
            r.0.source() == collection@,
            r.1 == clone_op(collection@),
    {
        let (own, op) = collection.clone_ref();
        (CollectionCursor { collection: own, curr: 0, count }, op)
    }

    /// The cursor's reference to the collection, for the native lookup of the
    /// element at a yielded index.
    pub fn collection(&self) -> (r: &ComPtr<T>)
        ensures
            r@ == self.source(),
    {
        &self.collection
    }

    /// The index of the next element, or `None` once all elements have been
    /// yielded; after the end every call returns `None`.
    pub fn next_index(&mut self) -> (r: Option<u32>)
        ensures
            index_of(r) == step_yield(old(self).position(), old(self).len()),
            final(self).position() == step_position(old(self).position(), old(self).len()),
            final(self).len() == old(self).len(),
            final(self).source() == old(self).source(),
    {
        proof {
            use_type_invariant(&*self);
        }
        if self.curr == self.count {
            None
        } else {
            let i = self.curr;
            self.curr = self.curr + 1;
            Some(i)
        }
    }

    /// Ends the walk: the caller performs the returned operation, which gives
    /// up the cursor's reference to the collection.
    pub fn close(&mut self) -> (r: RefOp)
        ensures
            r == release_op(old(self).source()),
            final(self).source() == None::<usize>,
            final(self).position() == old(self).position(),
            final(self).len() == old(self).len(),
    {
        proof {
            use_type_invariant(&*self);
        }
        self.collection.release()
    }
}

/// A walk over `count` elements yields the indices `0 .. count` in order, one
/// per step, and `None` at every step after that, however many there are.
pub proof fn walk_yields_each_index_once(count: nat, calls: nat)
    ensures
        yields(count, calls).len() == calls,
        position_after(count, calls) == (if calls <= count {
            calls
        } else {
            count
        }),
        forall|i: int|
            0 <= i < calls ==> #[trigger] yields(count, calls)[i] == (if i < count {
                Some(i as nat)
            } else {
                None
            }),
    decreases calls,
{
    if calls > 0 {
        let prev = (calls - 1) as nat;
        walk_yields_each_index_once(count, prev);
        assert forall|i: int| 0 <= i < calls implies #[trigger] yields(count, calls)[i] == (if i
            < count {
            Some(i as nat)
        } else {
            None
        }) by {
            if i < prev {
                assert(yields(count, calls)[i] == yields(count, prev)[i]);
            }
        }
    }
}

} // verus!
