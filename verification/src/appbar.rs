//! The AppBar state of the taskbar: the state found at start, the state that
//! is enforced while the taskbar is to stay hidden, and the state put back.

use vstd::prelude::*;
use crate::platform::ABS_AUTOHIDE;

verus! {

/// The state that is enforced over `original`: the same bits with auto-hide
/// set.
pub open spec fn spec_enforced_state(original: u32) -> u32 {
    original | ABS_AUTOHIDE
}

/// Remembers the AppBar state that the taskbar had when the program started
/// and the auto-hide state derived from it.
///
/// It computes which state to write; writing it is left to the caller.
pub struct TaskbarStateManager {
    original_state: u32,
    enforced_state: u32,
}

impl TaskbarStateManager {
    /// The enforced state is the original one with auto-hide set.
    #[verifier::type_invariant]
    spec fn enforced_follows_original(self) -> bool {
        self.enforced_state == spec_enforced_state(self.original_state)
    }

    /// The AppBar state found when the manager was made.
    pub closed spec fn original(self) -> u32 {
        self.original_state
    }

    /// The AppBar state that keeps the taskbar hidden.
    pub closed spec fn enforced(self) -> u32 {
        self.enforced_state
    }

    /// Makes a manager over the AppBar state `original_state` that was read
    /// from the taskbar.
    pub fn new(original_state: u32) -> (m: Self)
        ensures
            m.original() == original_state,
            m.enforced() == spec_enforced_state(original_state),
    {
        TaskbarStateManager { original_state, enforced_state: original_state | ABS_AUTOHIDE }
    }

    /// The state to write when the manager is made: the enforced state, if it
    /// differs from the state found; nothing if auto-hide was already on.
    pub fn initial_write(&self) -> (w: Option<u32>)
        ensures
            w == (if self.enforced() != self.original() {
                Some(self.enforced())
            } else {
                None::<u32>
            }),
            w is None <==> self.original() & ABS_AUTOHIDE == ABS_AUTOHIDE,
    {
        proof {
            use_type_invariant(self);
            lemma_enforced_state(self.original_state);
        }
        if self.enforced_state != self.original_state {
            Some(self.enforced_state)
        } else {
            None
        }
    }

    /// The state to write to enforce auto-hide: the original state with the
    /// auto-hide bit set.
    pub fn enforce(&self) -> (w: u32)
        ensures
            w == self.enforced(),
            w == spec_enforced_state(self.original()),
    {
        proof {
            use_type_invariant(self);
        }
        self.enforced_state
    }

    /// The state to write to restore the taskbar: exactly the state found.
    pub fn restore(&self) -> (w: u32)
        ensures
            w == self.original(),
    {
        self.original_state
    }

    /// Returns the AppBar state found when the manager was made.
    pub fn original_state(&self) -> (r: u32)
        ensures
            r == self.original(),
    {
        self.original_state
    }

    /// Returns the AppBar state that keeps the taskbar hidden.
    pub fn enforced_state(&self) -> (r: u32)
        ensures
            r == self.enforced(),
            r == spec_enforced_state(self.original()),
    {
        proof {
            use_type_invariant(self);
        }
        self.enforced_state
    }
}

/// The enforced state has auto-hide on and every other bit as in the original
/// state; it equals the original state exactly when auto-hide was on already,
/// and enforcing again over an enforced state changes nothing.
pub proof fn lemma_enforced_state(original: u32)
    ensures
        spec_enforced_state(original) & ABS_AUTOHIDE == ABS_AUTOHIDE,
        spec_enforced_state(original) & !ABS_AUTOHIDE == original & !ABS_AUTOHIDE,
        (spec_enforced_state(original) == original) <==> (original & ABS_AUTOHIDE == ABS_AUTOHIDE),
        spec_enforced_state(spec_enforced_state(original)) == spec_enforced_state(original),
{
    assert((original | 1u32) & 1u32 == 1u32) by (bit_vector);
    assert((original | 1u32) & !1u32 == original & !1u32) by (bit_vector);
    assert(((original | 1u32) == original) <==> (original & 1u32 == 1u32)) by (bit_vector);
    assert(((original | 1u32) | 1u32) == (original | 1u32)) by (bit_vector);
}

} // verus!
