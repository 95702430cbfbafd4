//! The mutex and its guard.
//!
//! A [`Mutex`] owns one payload and one lock word. A unit that wants the
//! payload makes an atomic attempt on the word; the attempt that finds the
//! word clear wins and is handed a [`MutexGuard`]. The payload travels with the
//! guard and goes back into the mutex, followed by the release of the word,
//! when the guard leaves scope on any path.
//!
//! # Hazards
//!
//! The lock knows no owner and is not reentrant: a unit that attempts a mutex
//! it already holds never wins, and a caller that retries until it wins then
//! waits for itself for ever. The same holds of an interrupt handler that runs
//! on the holder's hart and wants the same mutex. Nothing here masks
//! interrupts: a kernel that takes a mutex from handlers has to switch local
//! interrupt delivery off for the length of the critical section and restore
//! the earlier setting after the release.
//!
//! Waiting is not part of this module. One attempt always returns; a caller
//! that has to wait repeats [`Mutex::try_lock`] until it wins, for as long as
//! the holder takes.

use crate::lock_state::LockState;
use crate::lock_state::UNLOCKED;
use crate::slot::slot_made;
use crate::slot::slot_replace;
use crate::slot::Slot;
use core::sync::atomic::AtomicU32;
use core::sync::atomic::Ordering;
use vstd::prelude::*;

verus! {

/// `AtomicU32::store` with release ordering: everything the caller wrote before
/// the store is visible to the unit whose acquiring swap reads this word. The
/// contract claims only that the call returns without unwinding, which `store`
/// does for this ordering and which the release, running in a destructor, has
/// to know. Its caller owes that `value` is the word of a released lock: no
/// other word is stored through here.
#[verifier::external_body]
fn store_release(word: &AtomicU32, value: u32)
    requires
        value == LockState::Locked.spec_release().spec_word(),
    opens_invariants none
    no_unwind
{
    word.store(value, Ordering::Release)
}

/// `AtomicU32::swap` with acquire ordering: puts `value` into the word and hands
/// out the word that was there, and everything written before the releasing
/// store that the swap reads is visible to the caller afterwards. The contract
/// claims nothing of the word that comes out, which depends on the other
/// units. Its caller owes that `value` is the word that an attempt leaves
/// behind: no other word is swapped in through here.
#[verifier::external_body]
fn swap_acquire(word: &AtomicU32, value: u32) -> (previous: u32)
    requires
        value == LockState::Unlocked.spec_acquire().0.spec_word(),
{
    word.swap(value, Ordering::Acquire)
}

/// Empties a slot and hands out what it held.
fn vacate<T>(slot: &mut Option<T>) -> (content: Option<T>)
    ensures
        content == *old(slot),
        *final(slot) is None,
    opens_invariants none
    no_unwind
{
    let mut content = None;
    core::mem::swap(slot, &mut content);
    content
}

/// The payload in a slot that holds one.
fn occupant<T>(slot: &Option<T>) -> (payload: &T)
    requires
        *slot is Some,
    ensures
        *payload == slot->Some_0,
{
    match slot {
        Some(payload) => payload,
        None => vstd::pervasive::unreached(),
    }
}

/// The payload in a slot that holds one, for writing.
fn occupant_mut<T>(slot: &mut Option<T>) -> (payload: &mut T)
    requires
        *old(slot) is Some,
    ensures
        *payload == old(slot)->Some_0,
        *final(slot) == Some(*final(payload)),
    no_unwind
{
    match slot {
        Some(payload) => payload,
        None => vstd::pervasive::unreached(),
    }
}

/// A payload behind a spinning lock.
///
/// The payload can be reached only through a [`MutexGuard`], and a guard can be
/// had only from an attempt that won.
#[verifier::reject_recursive_types(T)]
pub struct Mutex<T> {
    /// [`crate::lock_state::UNLOCKED`] or [`crate::lock_state::LOCKED`].
    lock_state: AtomicU32,
    /// The payload while nobody holds the mutex, empty while a guard has it.
    inner: Slot<T>,
}

/// The payload on loan, with the way back. Dropping it is the release.
#[verifier::reject_recursive_types(T)]
struct Loan<'a, T> {
    mutex: &'a Mutex<T>,
    payload: Option<T>,
}

/// Exclusive access to the payload of a [`Mutex`], from a won attempt until the
/// guard leaves scope.
///
/// The guard borrows its mutex and does not keep it alive. It reads and writes
/// the payload through `*guard`.
#[verifier::reject_recursive_types(T)]
pub struct MutexGuard<'a, T> {
    loan: Loan<'a, T>,
}

impl<T> Loan<'_, T> {
    /// Whether the payload has left the loan for the mutex.
    pub closed spec fn returned(&self) -> bool {
        self.payload is None
    }
}

impl<T> Drop for Loan<'_, T> {
    /// The release, the one way from locked back to unlocked: the payload goes
    /// back into the mutex, then the word of the released state is stored with
    /// release ordering, so that the next holder sees every write this one
    /// made.
    fn drop(&mut self)
        ensures
            final(self).returned(),
        opens_invariants none
        no_unwind
    {
        let payload = vacate(&mut self.payload);
        let _ = slot_replace(&self.mutex.inner, payload);
        store_release(&self.mutex.lock_state, LockState::Locked.release().word());
    }
}

impl<'a, T> MutexGuard<'a, T> {
    /// A guard has the payload for as long as it exists.
    #[verifier::type_invariant]
    spec fn has_payload(&self) -> bool {
        self.loan.payload is Some
    }

    /// The payload as the guard holds it now.
    pub closed spec fn view(&self) -> T {
        self.loan.payload->Some_0
    }

    /// The mutex that the guard was taken from and will release.
    pub closed spec fn mutex(&self) -> &'a Mutex<T> {
        self.loan.mutex
    }

    /// What a won attempt comes to, given what came out of the slot of `mutex`:
    /// the guard around that payload, and no guard if the slot was empty.
    fn wrap(mutex: &'a Mutex<T>, content: Option<T>) -> (attempt: Option<MutexGuard<'a, T>>)
        ensures
            attempt is Some <==> content is Some,
            attempt matches Some(guard) ==> guard@ == content->Some_0 && guard.mutex() == mutex,
    {
        match content {
            Some(payload) => Some(MutexGuard { loan: Loan { mutex, payload: Some(payload) } }),
            None => None,
        }
    }
}

impl<T> core::ops::Deref for MutexGuard<'_, T> {
    type Target = T;

    fn deref(&self) -> (payload: &T)
        ensures
            *payload == self@,
    {
        proof {
            use_type_invariant(self);
        }
        occupant(&self.loan.payload)
    }
}

impl<T> core::ops::DerefMut for MutexGuard<'_, T> {
    fn deref_mut(&mut self) -> (payload: &mut T)
        ensures
            *payload == old(self)@,
            final(self)@ == *final(payload),
            final(self).mutex() == old(self).mutex(),
    {
        proof {
            use_type_invariant(&*self);
        }
        occupant_mut(&mut self.loan.payload)
    }
}

impl<T> Mutex<T> {
    /// An unlocked mutex that owns `value`.
    pub fn new(value: T) -> (mutex: Self)
        ensures
            mutex.first_word() == UNLOCKED,
            mutex.initial_state() == LockState::Unlocked,
            mutex.made_with() == Some(value),
    {
        Mutex { lock_state: word_new(LockState::Unlocked.word()), inner: slot_made(Some(value)) }
    }

    /// One atomic attempt to go from unlocked to locked.
    ///
    /// The word is swapped for [`crate::lock_state::LOCKED`] with acquire
    /// ordering, so that the winner sees every write the holder before it made.
    /// The attempt has won if the word that came out says unlocked, as
    /// [`LockState::acquire`] decides, and the winner takes the payload along in
    /// its guard. An attempt that has not won changes nothing: the word was
    /// locked and is locked.
    ///
    /// The word is cleared only after the payload is back, so a winner finds
    /// it. Were the slot empty all the same, the attempt counts as lost and the
    /// word stays locked, as it does for a mutex whose payload is away.
    pub fn try_lock(&self) -> (attempt: Option<MutexGuard<'_, T>>)
        ensures
            attempt matches Some(guard) ==> guard.mutex() == self,
    {
        let swapped = swap_acquire(&self.lock_state, LockState::Unlocked.acquire().0.word());
        self.settle(swapped)
    }

    /// What an attempt comes to, given the word that its swap handed out. A
    /// word that reads locked means the attempt has lost, and the slot is left
    /// alone. On any other word the attempt has won, and the guard is made
    /// around what the slot holds.
    fn settle(&self, swapped: u32) -> (attempt: Option<MutexGuard<'_, T>>)
        ensures
            !LockState::spec_from_word(swapped).spec_acquire().1 ==> attempt is None,
            attempt matches Some(guard) ==> guard.mutex() == self,
    {
        let (_, won) = LockState::from_word(swapped).acquire();
        if !won {
            return None;
        }
        MutexGuard::wrap(self, slot_replace(&self.inner, None))
    }
}

impl<T> Mutex<T> {
    /// The lock word that the mutex was made with.
    pub closed spec fn first_word(&self) -> u32 {
        initial_word(self.lock_state)
    }

    /// The state that the mutex was made in, before any attempt on it.
    pub closed spec fn initial_state(&self) -> LockState {
        LockState::spec_from_word(self.first_word())
    }

    /// The payload that the mutex was made around. It says nothing of what the
    /// payload is now.
    pub closed spec fn made_with(&self) -> Option<T> {
        self.inner.made_with()
    }
}

/// The value that an `AtomicU32` was made with. It says nothing of what the
/// atomic holds now.
pub uninterp spec fn initial_word(word: AtomicU32) -> u32;

/// `AtomicU32::new`: an atomic whose first value is `value`. The contract
/// claims that much and nothing of any later value.
#[verifier::external_body]
fn word_new(value: u32) -> (word: AtomicU32)
    ensures
        initial_word(word) == value,
{
    AtomicU32::new(value)
}

} // verus!
