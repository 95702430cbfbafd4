//! The lock word: one machine word shared by every unit, holding either
//! [`UNLOCKED`] or [`LOCKED`]. It is no count and names no owner.

use vstd::prelude::*;

verus! {

/// The word of a mutex that nobody holds.
pub const UNLOCKED: u32 = 0;

/// The word of a mutex that is held.
pub const LOCKED: u32 = 1;

/// The two states of a mutex.
#[derive(Clone, Copy, PartialEq, Eq, Structural, Debug)]
pub enum LockState {
    Unlocked,
    Locked,
}

impl LockState {
    /// The word that stands for this state.
    pub open spec fn spec_word(self) -> u32 {
        match self {
            LockState::Unlocked => UNLOCKED,
            LockState::Locked => LOCKED,
        }
    }

    /// The state that a word stands for. Only [`LOCKED`] means held: a waiter
    /// spins for as long as it reads exactly that word and no longer.
    pub open spec fn spec_from_word(word: u32) -> LockState {
        if word == LOCKED {
            LockState::Locked
        } else {
            LockState::Unlocked
        }
    }

    /// What one atomic attempt makes of this state: the mutex is held
    /// afterwards whatever it was before, and the attempt has won exactly when
    /// it found the mutex unlocked.
    pub open spec fn spec_acquire(self) -> (LockState, bool) {
        (LockState::Locked, self is Unlocked)
    }

    /// What the destruction of the guard makes of this state.
    pub open spec fn spec_release(self) -> LockState {
        LockState::Unlocked
    }

    /// The word to store for this state.
    pub fn word(self) -> (word: u32)
        ensures
            word == self.spec_word(),
        opens_invariants none
        no_unwind
    {
        match self {
            LockState::Unlocked => UNLOCKED,
            LockState::Locked => LOCKED,
        }
    }

    /// Reads a word that came out of the lock.
    pub fn from_word(word: u32) -> (state: LockState)
        ensures
            state == Self::spec_from_word(word),
    {
        if word == LOCKED {
            LockState::Locked
        } else {
            LockState::Unlocked
        }
    }

    /// One atomic attempt to go from unlocked to locked: the state it leaves
    /// behind and whether the attempt has won.
    pub fn acquire(self) -> (outcome: (LockState, bool))
        ensures
            outcome == self.spec_acquire(),
    {
        match self {
            LockState::Unlocked => (LockState::Locked, true),
            LockState::Locked => (LockState::Locked, false),
        }
    }

    /// The release: the one way back to unlocked.
    pub fn release(self) -> (state: LockState)
        ensures
            state == self.spec_release(),
        opens_invariants none
        no_unwind
    {
        LockState::Unlocked
    }
}

/// A word and the state read from it stand for each other.
pub proof fn word_round_trip(state: LockState)
    ensures
        LockState::spec_from_word(state.spec_word()) == state,
{
}

} // verus!
