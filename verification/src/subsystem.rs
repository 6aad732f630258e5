//! The process-wide state of the native font subsystem.
//!
//! The native library keeps one global flag: the subsystem is either
//! uninitialized or initialized.  Initialization is idempotent (asking again
//! while initialized performs no second native call), and shutdown returns
//! the subsystem to the uninitialized state.  Resource release is only legal
//! while the subsystem is initialized, so the handle types consult this state
//! before releasing anything.
//!
//! Callers mirror the native flag in a `SubsystemState` value: they query the
//! native "was init" flag, and thread the resulting state through the
//! transition functions here, which decide whether a native call is needed
//! and what the next state is.

use vstd::prelude::*;

verus! {

/// The global initialization state of the native font subsystem.
#[derive(Clone, Copy, Debug, PartialEq, Eq, Structural)]
pub enum SubsystemState {
    /// The native library has not been initialized, or has been shut down.
    Uninitialized,
    /// The native library is initialized; resources may be created and released.
    Initialized,
}

/// The state after an initialization request, given the current state and
/// whether the native init call (made only from `Uninitialized`) succeeded.
pub open spec fn init_next(st: SubsystemState, native_ok: bool) -> SubsystemState {
    match st {
        SubsystemState::Initialized => SubsystemState::Initialized,
        SubsystemState::Uninitialized => {
            if native_ok {
                SubsystemState::Initialized
            } else {
                SubsystemState::Uninitialized
            }
        },
    }
}

/// Whether an initialization request reports success, given the current
/// state and the native init call's outcome.
pub open spec fn init_ok(st: SubsystemState, native_ok: bool) -> bool {
    st is Initialized || native_ok
}

impl SubsystemState {
    /// Whether an initialization request from this state must perform the
    /// native init call.  From `Initialized` no call is made: initialization
    /// is idempotent and never initializes the native library twice.
    pub fn init_calls_native(self) -> (r: bool)
        ensures
            r == (self is Uninitialized),
    {
        match self {
            SubsystemState::Uninitialized => true,
            SubsystemState::Initialized => false,
        }
    }

    /// Initialization transition.  `native_ok` is the outcome of the native
    /// init call, and is consulted only when `init_calls_native` said such a
    /// call was to be made; from `Initialized` the request succeeds as-is.
    pub fn init(self, native_ok: bool) -> (r: (SubsystemState, bool))
        ensures
            r.0 == init_next(self, native_ok),
            r.1 == init_ok(self, native_ok),
            self is Initialized ==> r == (SubsystemState::Initialized, true),
    {
        match self {
            SubsystemState::Initialized => (SubsystemState::Initialized, true),
            SubsystemState::Uninitialized => {
                if native_ok {
                    (SubsystemState::Initialized, true)
                } else {
                    (SubsystemState::Uninitialized, false)
                }
            },
        }
    }

    /// Whether the subsystem is currently initialized.
    pub fn was_inited(self) -> (r: bool)
        ensures
            r == (self is Initialized),
    {
        match self {
            SubsystemState::Initialized => true,
            SubsystemState::Uninitialized => false,
        }
    }

    /// Shutdown transition: from any state the subsystem is uninitialized
    /// afterwards.  Handles created before this transition must no longer
    /// release their native resources.
    pub fn quit(self) -> (r: SubsystemState)
        ensures
            r is Uninitialized,
    {
        SubsystemState::Uninitialized
    }
}

/// Initialization is idempotent: once the subsystem is initialized, a further
/// initialization request performs no native call, reports success, and
/// leaves the state initialized, whatever outcome the (unmade) native call
/// would have had.
pub proof fn lemma_init_idempotent(native_ok: bool)
    ensures
        init_next(SubsystemState::Initialized, native_ok) == SubsystemState::Initialized,
        init_ok(SubsystemState::Initialized, native_ok),
{
}

/// Two initialization requests in a row reach the same state as one, and the
/// second always succeeds if the first did.
pub proof fn lemma_init_twice(st: SubsystemState, ok1: bool, ok2: bool)
    requires
        init_ok(st, ok1),
    ensures
        init_next(init_next(st, ok1), ok2) == init_next(st, ok1),
        init_ok(init_next(st, ok1), ok2),
{
}

} // verus!
