//! A handle that owns at most one counted reference to a native object.
//!
//! A native reference is represented by its address; the address 0 is the
//! null sentinel of an empty handle. The handle never touches the reference
//! count itself: each step that needs the count to change returns a `RefOp`
//! telling the caller which native operation to perform.

use vstd::prelude::*;
use core::marker::PhantomData;

verus! {

/// A reference-count operation that the owner of a handle must perform on
/// the native object after an ownership step.
#[derive(Clone, Copy, Debug, PartialEq, Eq, Structural)]
pub enum RefOp {
    /// No reference count changes.
    Nothing,
    /// Increment the count of the object at this address.
    AddRef(usize),
    /// Decrement the count of the object at this address.
    Release(usize),
}

/// What a slot holding `raw` owns: nothing for the null address, the
/// reference at `raw` otherwise.
pub open spec fn owned_by(raw: usize) -> Option<usize> {
    if raw == 0 {
        None
    } else {
        Some(raw)
    }
}

/// The operation that gives a second owner its own reference.
pub open spec fn clone_op(h: Option<usize>) -> RefOp {
    match h {
        Some(a) => RefOp::AddRef(a),
        None => RefOp::Nothing,
    }
}

/// The operation that gives up the reference a handle owns.
pub open spec fn release_op(h: Option<usize>) -> RefOp {
    match h {
        Some(a) => RefOp::Release(a),
        None => RefOp::Nothing,
    }
}

/// Single ownership of one counted reference to a native object of kind `T`,
/// or of nothing.
pub struct ComPtr<T> {
    raw: usize,
    kind: PhantomData<T>,
}

impl<T> View for ComPtr<T> {
    type V = Option<usize>;

    /// The address of the owned reference, or `None` for an empty handle.
    closed spec fn view(&self) -> Option<usize> {
        owned_by(self.raw)
    }
}

impl<T> ComPtr<T> {
    /// An empty handle: it owns no reference and releases nothing.
    pub fn new() -> (r: ComPtr<T>)
        ensures
            r@ == None::<usize>,
    {
        ComPtr { raw: 0, kind: PhantomData }
    }

    /// Takes over a reference whose count was already incremented for this
    /// owner (as a native "create" or "get" call hands it back). A null
    /// address gives an empty handle.
    pub fn take(raw: usize) -> (r: ComPtr<T>)
        ensures
            r@ == owned_by(raw),
    {
        ComPtr { raw, kind: PhantomData }
    }

    /// Whether the handle owns nothing.
    pub fn is_null(&self) -> (r: bool)
        ensures
            r == (self@ == None::<usize>),
    {
        self.raw == 0
    }

    /// The owned address, for read-only native calls; 0 for an empty handle.
    /// Ownership stays with the handle.
    pub fn as_raw(&self) -> (r: usize)
        ensures
            owned_by(r) == self@,
    {
        self.raw
    }

    /// A second, independent owner of the same object. The caller must
    /// perform the returned operation, which increments the count of a
    /// non-empty handle and does nothing for an empty one.
    pub fn clone_ref(&self) -> (r: (ComPtr<T>, RefOp))
        ensures
            r.0@ == self@,
            r.1 == clone_op(self@),
    {
        let op = if self.raw == 0 {
            RefOp::Nothing
        } else {
            RefOp::AddRef(self.raw)
        };
        (ComPtr { raw: self.raw, kind: PhantomData }, op)
    }

    /// Hands the owned address, and with it the one release obligation, to
    /// the caller. The handle is empty afterwards.
    pub fn forget(&mut self) -> (r: usize)
        ensures
            owned_by(r) == old(self)@,
            final(self)@ == None::<usize>,
    {
        let raw = self.raw;
        self.raw = 0;
        raw
    }

    /// Gives up the owned reference: the caller must perform the returned
    /// operation. The handle is empty afterwards, so a second call returns
    /// `RefOp::Nothing`.
    pub fn release(&mut self) -> (r: RefOp)
        ensures
            r == release_op(old(self)@),
            final(self)@ == None::<usize>,
        no_unwind
    {
        let op = if self.raw == 0 {
            RefOp::Nothing
        } else {
            RefOp::Release(self.raw)
        };
        self.raw = 0;
        op
    }
}

} // verus!
