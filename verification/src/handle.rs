//! Owning handles to opaque native resources, and the release guard.
//!
//! A native resource (a rendered text surface, for instance) is reached
//! through an opaque non-null address.  A `Handle` pairs that address with an
//! ownership flag: an owning handle is responsible for releasing the native
//! resource exactly once, a borrowed handle never releases it.  Release is
//! only legal while the native subsystem is initialized, and shutdown may
//! happen at any point in the process's lifetime, so the guard checks the
//! subsystem state at release time, not at acquisition time: `close` decides
//! whether the native release call may be made, and skips it silently when
//! the decision fails.  After `close` the handle owns nothing, so a second
//! `close` can never release the resource again.

use vstd::prelude::*;

use crate::error::NativeFailure;
use crate::subsystem::SubsystemState;

verus! {

/// Whether a handle in the given ownership state may release its native
/// resource under the given subsystem state: only an owning handle, and only
/// while the subsystem is initialized.
pub open spec fn release_decision(owns: bool, st: SubsystemState) -> bool {
    owns && st is Initialized
}

/// An owning or borrowing reference to an opaque native resource.
#[derive(Debug)]
pub struct Handle {
    raw: usize,
    owned: bool,
}

impl Handle {
    /// The address of the native resource.
    pub closed spec fn raw_spec(self) -> usize {
        self.raw
    }

    /// Whether this handle is responsible for releasing the resource.
    pub closed spec fn owns(self) -> bool {
        self.owned
    }

    /// A well-formed handle refers to an actual resource: its address is
    /// non-null.
    pub open spec fn wf(self) -> bool {
        self.raw_spec() != 0
    }

    /// Decide a native call that was to produce a resource: a non-null
    /// address becomes an owning handle, a null address means the call
    /// failed and `error`, the native last-error message read immediately
    /// after the call, becomes the failure value.  No third outcome exists.
    pub fn from_native(raw: usize, error: String) -> (r: Result<Handle, NativeFailure>)
        ensures
            r is Ok <==> raw != 0,
            r matches Ok(h) ==> h.wf() && h.owns() && h.raw_spec() == raw,
            r matches Err(e) ==> e.message_spec() == error@,
    {
        if raw == 0 {
            Err(NativeFailure::new(error))
        } else {
            Ok(Handle { raw, owned: true })
        }
    }

    /// A borrowed view of a resource owned elsewhere: well-formed, but never
    /// responsible for release.
    pub fn borrowed(raw: usize) -> (r: Handle)
        requires
            raw != 0,
        ensures
            r.wf(),
            !r.owns(),
            r.raw_spec() == raw,
    {
        Handle { raw, owned: false }
    }

    /// The address of the native resource, for making native calls on it.
    pub fn raw(&self) -> (r: usize)
        ensures
            r == self.raw_spec(),
    {
        self.raw
    }

    /// Whether this handle is responsible for releasing the resource.
    pub fn owned(&self) -> (r: bool)
        ensures
            r == self.owns(),
    {
        self.owned
    }

    /// The release guard.  Returns whether the caller must now make the
    /// native release call: only if this handle owned the resource and the
    /// subsystem is still initialized; otherwise release is skipped
    /// silently.  Afterwards the handle owns nothing, so release can never
    /// be decided twice for the same resource.
    pub fn close(&mut self, st: SubsystemState) -> (release: bool)
        ensures
            release == release_decision(old(self).owns(), st),
            !final(self).owns(),
            final(self).raw_spec() == old(self).raw_spec(),
    {
        let release = self.owned && st.was_inited();
        self.owned = false;
        release
    }
}

/// Once the subsystem has been shut down, no handle releases its resource,
/// owning or not: destroying a handle created before shutdown skips the
/// native release call instead of touching the dead subsystem.
pub proof fn lemma_release_skipped_after_shutdown(owns: bool)
    ensures
        !release_decision(owns, SubsystemState::Uninitialized),
{
}

/// A handle that owns nothing never releases, whatever the subsystem state:
/// a borrowed handle cannot free its referent, and a handle already closed
/// (which then owns nothing) cannot release a second time.
pub proof fn lemma_no_release_without_ownership(st: SubsystemState)
    ensures
        !release_decision(false, st),
{
}

} // verus!
