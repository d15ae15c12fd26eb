//! Turning the status and output slot of a native "create" or "get" call into
//! an owning handle, under one of two failure policies.

use vstd::prelude::*;
use crate::handle::{ComPtr, RefOp, owned_by, release_op};

verus! {

/// The status code of a native call that succeeded.
pub const S_OK: i32 = 0;

/// How a failed acquisition is to be treated.
#[derive(Clone, Copy, Debug, PartialEq, Eq, Structural)]
pub enum FailurePolicy {
    /// The call cannot fail in a correctly configured environment; a failure
    /// must stop the current operation.
    Fatal,
    /// Failure is an ordinary outcome and is reported as absence.
    Recoverable,
}

/// The outcome of one acquisition.
pub enum Acquisition<T> {
    /// The call handed back a reference, now owned by the handle.
    Owned(ComPtr<T>),
    /// Nothing was found; the caller reports absence.
    Absent,
    /// The call failed with this status although it was not allowed to; the
    /// caller must stop.
    Fatal(i32),
}

/// Whether a native call with status `hr` handed back the reference `written`.
pub open spec fn delivered(hr: i32, written: usize) -> bool {
    hr == S_OK && written != 0
}

/// Interprets the status `hr` of a native call and the address `written` that
/// it stored in its output slot. On success the returned handle owns that
/// reference; otherwise the slot is ignored and the policy decides between
/// absence and a fatal stop.
pub fn acquisition<T>(policy: FailurePolicy, hr: i32, written: usize) -> (r: Acquisition<T>)
    ensures
        delivered(hr, written) ==> (r matches Acquisition::Owned(h) && h@ == Some(written)),
        !delivered(hr, written) && policy == FailurePolicy::Recoverable ==> r is Absent,
        !delivered(hr, written) && policy == FailurePolicy::Fatal ==> (r matches Acquisition::Fatal(
            s,
        ) && s == hr),
{
    if hr == S_OK && written != 0 {
        Acquisition::Owned(ComPtr::take(written))
    } else {
        match policy {
            FailurePolicy::Recoverable => Acquisition::Absent,
            FailurePolicy::Fatal => Acquisition::Fatal(hr),
        }
    }
}

/// The recoverable policy as an `Option`: the owning handle when the call
/// delivered a reference, `None` otherwise.
pub fn acquired<T>(hr: i32, written: usize) -> (r: Option<ComPtr<T>>)
    ensures
        delivered(hr, written) <==> r is Some,
        r matches Some(h) ==> h@ == Some(written),
{
    match acquisition(FailurePolicy::Recoverable, hr, written) {
        Acquisition::Owned(h) => Some(h),
        _ => None,
    }
}

impl<T> ComPtr<T> {
    /// Refills the handle from a native output slot: the reference owned so
    /// far is given up (the caller performs the returned operation), and the
    /// handle then owns `written` if the call succeeded, nothing otherwise.
    pub fn store_output(&mut self, hr: i32, written: usize) -> (r: RefOp)
        ensures
            r == release_op(old(self)@),
            final(self)@ == (if hr == S_OK {
                owned_by(written)
            } else {
                None
            }),
    {
        let op = self.release();
        if hr == S_OK {
            *self = ComPtr::take(written);
        }
        op
    }
}

} // verus!
