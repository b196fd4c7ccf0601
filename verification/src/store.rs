//! The store: the slots behind one lock.
//!
//! Everything here asks for the lock without waiting, so it is safe to call
//! from a loop that must never stall. A caller that can wait for the lock
//! gets it from `ResultStore::mutex` and works on the slots directly.

use crate::error::PerformError;
use crate::id::is_random_uuid;
use crate::id::SessionId;
use crate::slots::Slots;
use crate::state::StoreEntry;
use vstd::prelude::*;

verus! {

/// `tokio::sync::Mutex`, carried as an opaque value.
#[verifier::external_type_specification]
#[verifier::external_body]
#[verifier::reject_recursive_types(T)]
pub struct ExMutex<T: ?Sized>(tokio::sync::Mutex<T>);

/// `tokio::sync::MutexGuard`, carried as an opaque value. The lock is held
/// for as long as the guard lives.
#[verifier::external_type_specification]
#[verifier::external_body]
#[verifier::reject_recursive_types(T)]
pub struct ExMutexGuard<'a, T: ?Sized>(tokio::sync::MutexGuard<'a, T>);

/// `tokio::sync::TryLockError`, the failure of `Mutex::try_lock`.
#[verifier::external_type_specification]
#[verifier::external_body]
pub struct ExTryLockError(tokio::sync::TryLockError);

/// An unlocked mutex around `slots`, made by `tokio::sync::Mutex::new`.
/// Nothing is claimed of the mutex: what it holds later depends on who
/// locked it.
#[verifier::external_body]
fn lock_around<T>(slots: Slots<T>) -> (mutex: tokio::sync::Mutex<Slots<T>>) {
    tokio::sync::Mutex::new(slots)
}

/// `tokio::sync::Mutex::try_lock` returns at once, with the guard or with
/// an error where the lock is held. Which of the two comes back depends on
/// the other holders, so nothing is claimed of it.
pub assume_specification<'a, T: ?Sized>[ tokio::sync::Mutex::<T>::try_lock ](
    mutex: &'a tokio::sync::Mutex<T>,
) -> (attempt: Result<tokio::sync::MutexGuard<'a, T>, tokio::sync::TryLockError>)
;

/// The slots that a held lock protects, through `DerefMut::deref_mut` of
/// `tokio::sync::MutexGuard`. Nothing is claimed of what they hold.
#[verifier::external_body]
pub(crate) fn slots_under<'g, 'a, T>(guard: &'g mut tokio::sync::MutexGuard<'a, Slots<T>>) -> (slots:
    &'g mut Slots<T>) {
    &mut **guard
}

/// What a take without waiting can return: any state of a slot, `Locked`
/// or `NotFound`, and never `Empty` as a failure.
pub open spec fn take_answer<T>(found: StoreEntry<T>) -> bool {
    match found {
        Ok(_) => true,
        Err(error) => error is Locked || error is NotFound,
    }
}

/// What a registration without waiting can return: whether the slot is new,
/// or `Locked`.
pub open spec fn register_answer(added: Result<bool, PerformError>) -> bool {
    match added {
        Ok(_) => true,
        Err(error) => error is Locked,
    }
}

/// What is made of an attempt on the lock: the guard where it was free, and
/// `Locked` where it was held.
pub fn or_locked<G>(attempt: Result<G, tokio::sync::TryLockError>) -> (held: Result<
    G,
    PerformError,
>)
    ensures
        match attempt {
            Ok(guard) => held == Ok::<G, PerformError>(guard),
            Err(_) => held == Err::<G, PerformError>(PerformError::Locked),
        },
{
    match attempt {
        Ok(guard) => Ok(guard),
        Err(_) => Err(PerformError::Locked),
    }
}

/// A store of results: the slots of the running operations behind a lock.
#[verifier::reject_recursive_types(T)]
pub struct ResultStore<T> {
    lock: tokio::sync::Mutex<Slots<T>>,
}

impl<T> ResultStore<T> {
    /// The lock of this store.
    pub closed spec fn lock_of(&self) -> &tokio::sync::Mutex<Slots<T>> {
        &self.lock
    }

    /// A store without slots.
    pub fn new() -> (store: Self) {
        ResultStore { lock: lock_around(Slots::new()) }
    }

    /// The lock and the slots behind it, for a caller that waits for the
    /// lock in its own way.
    pub fn mutex(&self) -> (lock: &tokio::sync::Mutex<Slots<T>>)
        ensures
            lock == self.lock_of(),
    {
        &self.lock
    }

    /// Registers `id` with an empty slot unless the lock is held. Returns
    /// whether the slot is new, or `Locked`.
    pub fn try_register(&self, id: SessionId) -> (added: Result<bool, PerformError>)
        ensures
            register_answer(added),
    {
        match or_locked(self.lock.try_lock()) {
            Ok(mut guard) => {
                let slots = slots_under(&mut guard);
                Ok(slots.register(id))
            },
            Err(error) => Err(error),
        }
    }

    /// Draws a new identifier and registers it unless the lock is held. The
    /// identifier comes back either way; where the lock was held its slot
    /// does not exist until someone registers it.
    pub fn try_activate(&self) -> (id: SessionId)
        ensures
            is_random_uuid(id@),
    {
        let id = SessionId::fresh();
        let _ = self.try_register(id);
        id
    }

    /// Takes what the slot of `id` holds unless the lock is held. Never
    /// waits: a held lock gives `Locked`.
    pub fn try_take(&self, id: SessionId) -> (found: StoreEntry<T>)
        ensures
            take_answer(found),
    {
        match or_locked(self.lock.try_lock()) {
            Ok(mut guard) => {
                let slots = slots_under(&mut guard);
                slots.take(id)
            },
            Err(error) => Err(error),
        }
    }
}

} // verus!
