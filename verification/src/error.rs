//! The error bridge: native failures surfaced as result values.
//!
//! The native library signals failure through a return value (a null address
//! or a nonzero status) and leaves its message in a single global last-error
//! slot.  Callers must read that slot immediately after the failing call,
//! before any other native call can overwrite it, and hand the message to
//! the decision functions of this crate, which package it as a
//! `NativeFailure`.  Every fallible operation in this library propagates the
//! native message verbatim; nothing is retried and no ambient error state is
//! read outside the call frame that produced the failure.

use vstd::prelude::*;

verus! {

/// A failure reported by the native library, carrying its last-error message
/// verbatim.
#[derive(Debug)]
pub struct NativeFailure {
    message: String,
}

impl NativeFailure {
    /// The message of this failure.
    pub closed spec fn message_spec(self) -> Seq<char> {
        self.message@
    }

    /// Package a native last-error message, kept verbatim.
    pub fn new(message: String) -> (r: NativeFailure)
        ensures
            r.message_spec() == message@,
    {
        NativeFailure { message }
    }

    /// Read the message of this failure.
    pub fn message(&self) -> (r: &String)
        ensures
            r@ == self.message_spec(),
    {
        &self.message
    }

    /// Give up this failure for its message.
    pub fn into_message(self) -> (r: String)
        ensures
            r@ == self.message_spec(),
    {
        self.message
    }
}

} // verus!
