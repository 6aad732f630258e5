//! Ownership of a raw stream handed to a native loader.
//!
//! The raw-stream loading calls take a flag telling the native library
//! whether it should close the stream once it is done with it.  Getting the
//! flag wrong frees the stream twice or never, so the binding tracks the
//! intended owner explicitly and translates it to the native flag here,
//! instead of passing a bare integer per call.

use vstd::prelude::*;

verus! {

/// Who closes a raw stream after a native loading call: the caller keeps the
/// duty, or transfers it to the native library for the duration of the call.
#[derive(Clone, Copy, Debug, PartialEq, Eq, Structural)]
pub enum StreamOwnership {
    /// The caller keeps the stream and closes it itself; the native library
    /// must leave it open.
    CallerCloses,
    /// The native library closes the stream when it is done; the caller must
    /// not touch it afterwards.
    NativeCloses,
}

/// The native flag for a stream-ownership choice: nonzero transfers the
/// closing duty to the native library.
pub open spec fn freesrc_value(o: StreamOwnership) -> i32 {
    match o {
        StreamOwnership::CallerCloses => 0,
        StreamOwnership::NativeCloses => 1,
    }
}

impl StreamOwnership {
    /// Whether the caller still closes the stream after the call.
    pub fn caller_closes(self) -> (r: bool)
        ensures
            r == (self is CallerCloses),
    {
        match self {
            StreamOwnership::CallerCloses => true,
            StreamOwnership::NativeCloses => false,
        }
    }

    /// Encode this choice as the native flag.
    pub fn to_freesrc(self) -> (r: i32)
        ensures
            r == freesrc_value(self),
            (r != 0) == (self is NativeCloses),
    {
        match self {
            StreamOwnership::CallerCloses => 0,
            StreamOwnership::NativeCloses => 1,
        }
    }
}

/// Exactly one side closes the stream: the caller keeps the closing duty
/// precisely when it is not transferred to the native library, so the stream
/// is never closed twice and never leaked by the protocol.
pub proof fn lemma_one_side_closes(o: StreamOwnership)
    ensures
        (o is CallerCloses) != (freesrc_value(o) != 0),
{
}

} // verus!
