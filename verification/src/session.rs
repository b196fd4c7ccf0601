//! A session: one identifier bound to the store that holds its slot.

use crate::id::is_random_uuid;
use crate::id::SessionId;
use crate::state::StoreEntry;
use crate::store::take_answer;
use crate::store::ResultStore;
use vstd::prelude::*;

verus! {

/// A handle on the slot of one operation. It carries the identifier, so
/// that its holder never passes one.
#[verifier::reject_recursive_types(T)]
pub struct Session<'a, T> {
    id: SessionId,
    store: &'a ResultStore<T>,
}

impl<'a, T> Session<'a, T> {
    /// The identifier of this session.
    pub closed spec fn ident(&self) -> SessionId {
        self.id
    }

    /// The store of this session.
    pub closed spec fn home(&self) -> &'a ResultStore<T> {
        self.store
    }

    /// A session on a new identifier, registered in `store` unless the lock
    /// is held. Never waits.
    pub fn try_activate(store: &'a ResultStore<T>) -> (session: Self)
        ensures
            session.home() == store,
            is_random_uuid(session.ident()@),
    {
        Session { id: store.try_activate(), store }
    }

    /// A session on an identifier that is known already.
    pub fn attach(store: &'a ResultStore<T>, id: SessionId) -> (session: Self)
        ensures
            session.home() == store,
            session.ident() == id,
    {
        Session { id, store }
    }

    /// The identifier of this session.
    pub fn id(&self) -> (id: SessionId)
        ensures
            id == self.ident(),
    {
        self.id
    }

    /// The store of this session.
    pub fn store(&self) -> (store: &'a ResultStore<T>)
        ensures
            store == self.home(),
    {
        self.store
    }

    /// Takes what the slot of this session holds unless the lock is held.
    pub fn try_take(&self) -> (found: StoreEntry<T>)
        ensures
            take_answer(found),
    {
        self.store.try_take(self.id)
    }
}

} // verus!
