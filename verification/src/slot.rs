//! The slot that a mutex keeps its payload in.
//!
//! A slot can be written through a shared reference, so what it holds at any
//! moment is not something its value tells. What it was made with is.

use core::cell::Cell;
use vstd::prelude::*;

verus! {

/// `core::cell::Cell`, a place that can be written through a shared
/// reference. Nothing is known of what it holds.
#[verifier::external_type_specification]
#[verifier::external_body]
#[verifier::reject_recursive_types(T)]
pub struct ExCell<T: ?Sized>(Cell<T>);

/// A place for at most one payload.
#[verifier::reject_recursive_types(T)]
pub struct Slot<T> {
    cell: Cell<Option<T>>,
    first: Ghost<Option<T>>,
}

impl<T> Slot<T> {
    /// What the slot was made with. It says nothing of what the slot holds
    /// now.
    pub closed spec fn made_with(&self) -> Option<T> {
        self.first@
    }
}

/// `Cell::new`: a slot whose first content is `value`. The contract claims
/// that much and nothing of any later content.
#[verifier::external_body]
pub(crate) fn slot_made<T>(value: Option<T>) -> (slot: Slot<T>)
    ensures
        slot.made_with() == value,
{
    Slot { first: Ghost(value), cell: Cell::new(value) }
}

/// `Cell::replace`: puts `value` into the slot and hands out what was there.
/// The contract claims only that the call returns without unwinding; what
/// comes out depends on who wrote the slot last.
#[verifier::external_body]
pub(crate) fn slot_replace<T>(slot: &Slot<T>, value: Option<T>) -> (previous: Option<T>)
    opens_invariants none
    no_unwind
{
    slot.cell.replace(value)
}

} // verus!
