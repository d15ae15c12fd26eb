//! An in-memory table of reference counts that stands in for the native
//! layer: it performs the operations that handles ask for and records their
//! effect, so that ownership discipline can be checked without native objects.
//!
//! Objects are numbered from 1; the object at address `a` has its count at
//! position `a - 1`. An object whose count reached 0 has been destroyed.

use vstd::prelude::*;
use crate::handle::{RefOp, clone_op, release_op};

verus! {

/// Whether `a` names an object of `counts` that is still alive.
pub open spec fn live(counts: Seq<nat>, a: usize) -> bool {
    1 <= a <= counts.len() && counts[a - 1] > 0
}

/// Whether the native layer accepts `op`: it names a live object, and an
/// increment stays within the counter's range.
pub open spec fn accepts(counts: Seq<nat>, op: RefOp) -> bool {
    match op {
        RefOp::Nothing => true,
        RefOp::AddRef(a) => live(counts, a) && counts[a - 1] < u64::MAX,
        RefOp::Release(a) => live(counts, a),
    }
}

/// The counts after the native layer performed `op`; an operation it does
/// not accept changes nothing.
pub open spec fn apply(counts: Seq<nat>, op: RefOp) -> Seq<nat> {
    if !accepts(counts, op) {
        counts
    } else {
        match op {
            RefOp::Nothing => counts,
            RefOp::AddRef(a) => counts.update(a - 1, counts[a - 1] + 1),
            RefOp::Release(a) => counts.update(a - 1, (counts[a - 1] - 1) as nat),
        }
    }
}

/// The reference counts of a set of objects.
pub struct RefLedger {
    counts: Vec<u64>,
}

impl View for RefLedger {
    type V = Seq<nat>;

    closed spec fn view(&self) -> Seq<nat> {
        self.counts@.map_values(|c: u64| c as nat)
    }
}

impl RefLedger {
    /// A ledger without objects.
    pub fn new() -> (r: RefLedger)
        ensures
            r@ == Seq::<nat>::empty(),
    {
        let r = RefLedger { counts: Vec::new() };
        assert(r@ =~= Seq::<nat>::empty());
        r
    }

    /// Creates an object with one reference, owned by the caller, and returns
    /// its address.
    pub fn create(&mut self) -> (a: usize)
        requires
            old(self)@.len() < usize::MAX - 1,
        ensures
            a == old(self)@.len() + 1,
            final(self)@ == old(self)@.push(1),
    {
        self.counts.push(1);
        assert(self@ =~= old(self)@.push(1));
        self.counts.len()
    }

    /// The count of the object at `a`; 0 for an address that names none.
    pub fn count(&self, a: usize) -> (r: u64)
        ensures
            r == (if 1 <= a <= self@.len() {
                self@[a - 1]
            } else {
                0
            }),
    {
        if a >= 1 && a <= self.counts.len() {
            self.counts[a - 1]
        } else {
            0
        }
    }

    /// Performs `op` if the native layer accepts it, and says whether it did.
    pub fn perform(&mut self, op: RefOp) -> (ok: bool)
        ensures
            ok == accepts(old(self)@, op),
            final(self)@ == apply(old(self)@, op),
    {
        match op {
            RefOp::Nothing => true,
            RefOp::AddRef(a) => {
                if a >= 1 && a <= self.counts.len() && self.counts[a - 1] > 0 && self.counts[a
                    - 1] < u64::MAX {
                    let c = self.counts[a - 1];
                    self.counts.set(a - 1, c + 1);
                    assert(self@ =~= apply(old(self)@, op));
                    true
                } else {
                    false
                }
            },
            RefOp::Release(a) => {
                if a >= 1 && a <= self.counts.len() && self.counts[a - 1] > 0 {
                    let c = self.counts[a - 1];
                    self.counts.set(a - 1, c - 1);
                    assert(self@ =~= apply(old(self)@, op));
                    true
                } else {
                    false
                }
            },
        }
    }
}

/// A handle emptied by `forget` owns nothing: destroying it asks for no
/// native operation and leaves every count as it was.
pub proof fn forgotten_handle_releases_nothing(counts: Seq<nat>)
    ensures
        release_op(None) == RefOp::Nothing,
        apply(counts, release_op(None)) == counts,
{
}

/// Cloning a handle on a live object and then destroying the original leaves
/// the object alive with its count as before the clone, so the clone stays
/// usable; destroying the clone then releases exactly one more reference, and
/// the emptied original asks for no second release.
pub proof fn clone_then_release_keeps_clone_alive(counts: Seq<nat>, a: usize)
    requires
        live(counts, a),
        counts[a - 1] < u64::MAX,
    ensures
        apply(apply(counts, clone_op(Some(a))), release_op(Some(a))) == counts,
        live(apply(apply(counts, clone_op(Some(a))), release_op(Some(a))), a),
        apply(counts, release_op(Some(a))) == counts.update(a - 1, (counts[a - 1] - 1) as nat),
        release_op(None) == RefOp::Nothing,
{
    let c1 = apply(counts, clone_op(Some(a)));
    assert(c1 == counts.update(a - 1, counts[a - 1] + 1));
    assert(apply(c1, release_op(Some(a))) =~= counts);
}

} // verus!
