//! The slots of a store: one per registered identifier, each holding the
//! state of one operation.
//!
//! A slot is created empty, is written once when its operation finishes, and
//! is removed when the finished value is taken. Nothing here locks; the store
//! puts these slots behind its lock. Whoever holds the lock does one of the
//! operations below, so that whatever happens to a store, in any order and
//! from any number of callers, is a run of them.

use crate::error::found_or_missing;
use crate::error::ok_or_empty;
use crate::error::PerformError;
use crate::id::is_random_uuid;
use crate::id::SessionId;
use crate::state::PerformState;
use crate::state::StoreEntry;
use std::collections::HashMap;
use vstd::prelude::*;

verus! {

broadcast use vstd::std_specs::hash::group_hash_axioms;

/// The slots as a map from identifier to state.
pub type SlotMap<T> = Map<u128, PerformState<T>>;

/// Whether `id` has a slot that still waits for its value.
pub open spec fn pending<T>(slots: SlotMap<T>, id: u128) -> bool {
    slots.contains_key(id) && slots[id] is Empty
}

/// Whether `id` has a slot that holds a finished value.
pub open spec fn ready<T>(slots: SlotMap<T>, id: u128) -> bool {
    slots.contains_key(id) && slots[id] is Done
}

/// Whether some random identifier has a slot, so that a draw can meet it.
pub open spec fn in_use<T>(slots: SlotMap<T>) -> bool {
    exists|bits: u128| is_random_uuid(bits) && #[trigger] slots.contains_key(bits)
}

/// The slots after `id` was registered: an empty slot is added for an
/// identifier that had none, and an existing slot is left as it is.
pub open spec fn registered<T>(slots: SlotMap<T>, id: u128) -> SlotMap<T> {
    if slots.contains_key(id) {
        slots
    } else {
        slots.insert(id, PerformState::Empty)
    }
}

/// The slots after the operation of `id` finished with `value`: the value
/// goes into a slot that waits for it, and nowhere else.
pub open spec fn completed<T>(slots: SlotMap<T>, id: u128, value: T) -> SlotMap<T> {
    if pending(slots, id) {
        slots.insert(id, PerformState::Done(value))
    } else {
        slots
    }
}

/// What the lookup of `id` finds: the state of its slot, or nothing.
pub open spec fn lookup_result<T>(slots: SlotMap<T>, id: u128) -> Option<StoreEntry<T>> {
    if slots.contains_key(id) {
        Some(Ok(slots[id]))
    } else {
        None
    }
}

/// What a take of `id` returns: the state of its slot, or `NotFound`.
pub open spec fn take_result<T>(slots: SlotMap<T>, id: u128) -> StoreEntry<T> {
    found_or_missing(lookup_result(slots, id))
}

/// The slots after a take of `id`: a finished slot leaves with its value,
/// a waiting slot stays for the value to come.
pub open spec fn taken<T>(slots: SlotMap<T>, id: u128) -> SlotMap<T> {
    if ready(slots, id) {
        slots.remove(id)
    } else {
        slots
    }
}

/// The slots of one store.
#[verifier::reject_recursive_types(T)]
pub struct Slots<T> {
    entries: HashMap<u128, PerformState<T>>,
}

impl<T> View for Slots<T> {
    type V = Map<u128, PerformState<T>>;

    closed spec fn view(&self) -> Map<u128, PerformState<T>> {
        self.entries@
    }
}

impl<T> Slots<T> {
    /// No slots.
    pub fn new() -> (slots: Self)
        ensures
            slots@ == Map::<u128, PerformState<T>>::empty(),
    {
        Slots { entries: HashMap::new() }
    }

    /// The number of slots.
    pub fn len(&self) -> (count: usize)
        ensures
            count == self@.len(),
            self@.dom().finite(),
    {
        self.entries.len()
    }

    /// Whether `id` has a slot.
    pub fn contains(&self, id: SessionId) -> (present: bool)
        ensures
            present == self@.contains_key(id@),
    {
        self.entries.contains_key(&id.0)
    }

    /// Whether `id` has a slot that waits for its value.
    pub fn is_pending(&self, id: SessionId) -> (waiting: bool)
        ensures
            waiting == pending(self@, id@),
    {
        match self.entries.get(&id.0) {
            Some(state) => !state.is_done(),
            None => false,
        }
    }

    /// Whether `id` has a slot with a finished value in it.
    pub fn is_ready(&self, id: SessionId) -> (finished: bool)
        ensures
            finished == ready(self@, id@),
    {
        match self.entries.get(&id.0) {
            Some(state) => state.is_done(),
            None => false,
        }
    }

    /// Registers `id` with an empty slot. Returns whether the slot is new;
    /// the slot of an identifier that is registered already is not touched.
    pub fn register(&mut self, id: SessionId) -> (added: bool)
        ensures
            final(self)@ == registered(old(self)@, id@),
            added == !old(self)@.contains_key(id@),
    {
        if self.entries.contains_key(&id.0) {
            false
        } else {
            self.entries.insert(id.0, PerformState::Empty);
            true
        }
    }

    /// Draws a new identifier and registers it with an empty slot. Returns
    /// nothing, and changes nothing, in the one case that the identifier
    /// drawn is in use: so it succeeds wherever no random identifier has a
    /// slot, and on new slots always.
    pub fn activate(&mut self) -> (drawn: Option<SessionId>)
        ensures
            match drawn {
                Some(id) => is_random_uuid(id@) && !old(self)@.contains_key(id@) && final(self)@
                    == old(self)@.insert(id@, PerformState::Empty),
                None => final(self)@ == old(self)@ && in_use(old(self)@),
            },
    {
        let id = SessionId::fresh();
        if self.register(id) {
            Some(id)
        } else {
            assert(is_random_uuid(id@) && old(self)@.contains_key(id@));
            None
        }
    }

    /// Writes the value that the operation of `id` produced. The write
    /// happens only into a slot that waits for it: a finished slot is never
    /// overwritten and no slot is made for an unknown identifier. A value
    /// that was not written comes back.
    pub fn complete(&mut self, id: SessionId, value: T) -> (refused: Result<(), T>)
        ensures
            final(self)@ == completed(old(self)@, id@, value),
            match refused {
                Ok(_) => pending(old(self)@, id@),
                Err(back) => !pending(old(self)@, id@) && back == value,
            },
    {
        if self.is_pending(id) {
            self.entries.insert(id.0, PerformState::Done(value));
            Ok(())
        } else {
            Err(value)
        }
    }

    /// Looks the slot of `id` up for a take: what the slot holds, or nothing
    /// where `id` has no slot. A finished value leaves the store with its
    /// slot; a slot that still waits is reported as `Empty` and stays.
    pub fn get_as_take(&mut self, id: SessionId) -> (lookup: Option<StoreEntry<T>>)
        ensures
            lookup == lookup_result(old(self)@, id@),
            final(self)@ == taken(old(self)@, id@),
    {
        if self.is_ready(id) {
            match self.entries.remove(&id.0) {
                Some(state) => Some(Ok(state)),
                None => None,
            }
        } else if self.entries.contains_key(&id.0) {
            Some(Ok(PerformState::Empty))
        } else {
            None
        }
    }

    /// Takes what the slot of `id` holds. A finished value leaves the store
    /// with its slot, so that a later take of `id` finds nothing and gives
    /// `NotFound`. A slot that still waits is reported as `Empty` and stays.
    pub fn take(&mut self, id: SessionId) -> (found: StoreEntry<T>)
        ensures
            found == take_result(old(self)@, id@),
            final(self)@ == taken(old(self)@, id@),
    {
        let lookup = self.get_as_take(id);
        ok_or_empty(lookup)
    }
}

/// One operation on the slots, as a value: what any holder of the lock can
/// do to them.
pub enum SlotOp<T> {
    /// `Slots::register` of an identifier.
    Register(u128),
    /// `Slots::complete` of an identifier with a value.
    Complete(u128, T),
    /// `Slots::take` of an identifier.
    Take(u128),
}

impl<T> SlotOp<T> {
    /// The identifier that the operation names.
    pub open spec fn target(self) -> u128 {
        match self {
            SlotOp::Register(id) => id,
            SlotOp::Complete(id, _) => id,
            SlotOp::Take(id) => id,
        }
    }
}

/// The slots after one operation.
pub open spec fn apply<T>(slots: SlotMap<T>, op: SlotOp<T>) -> SlotMap<T> {
    match op {
        SlotOp::Register(id) => registered(slots, id),
        SlotOp::Complete(id, value) => completed(slots, id, value),
        SlotOp::Take(id) => taken(slots, id),
    }
}

/// The slots after a run of operations, the first of `ops` first.
pub open spec fn apply_all<T>(slots: SlotMap<T>, ops: Seq<SlotOp<T>>) -> SlotMap<T>
    decreases ops.len(),
{
    if ops.len() == 0 {
        slots
    } else {
        apply(apply_all(slots, ops.drop_last()), ops.last())
    }
}

/// No operation touches the slot of an identifier that it does not name.
pub proof fn lemma_other_slots_untouched<T>(slots: SlotMap<T>, op: SlotOp<T>, other: u128)
    requires
        op.target() != other,
    ensures
        apply(slots, op).contains_key(other) == slots.contains_key(other),
        slots.contains_key(other) ==> apply(slots, op)[other] == slots[other],
{
}

/// Registration gives an identifier its slot, and the slot stays until a
/// take finds a finished value in it: whatever else happens to the slots,
/// an identifier that nobody takes keeps its one slot.
pub proof fn lemma_slot_stays_until_taken<T>(slots: SlotMap<T>, id: u128, ops: Seq<SlotOp<T>>)
    requires
        forall|i: int| 0 <= i < ops.len() ==> ops[i] != SlotOp::<T>::Take(id),
    ensures
        registered(slots, id).contains_key(id),
        apply_all(registered(slots, id), ops).contains_key(id),
    decreases ops.len(),
{
    if ops.len() > 0 {
        let earlier = ops.drop_last();
        assert forall|i: int| 0 <= i < earlier.len() implies earlier[i] != SlotOp::<T>::Take(
            id,
        ) by {
            assert(earlier[i] == ops[i]);
        }
        lemma_slot_stays_until_taken(slots, id, earlier);
        assert(ops.last() == ops[ops.len() - 1]);
    }
}

/// A finished value is taken once. After the take that returned it, the
/// identifier has no slot, and as long as nobody registers the identifier
/// again every later take of it returns `NotFound`.
pub proof fn lemma_single_delivery<T>(slots: SlotMap<T>, id: u128, later: Seq<SlotOp<T>>)
    requires
        ready(slots, id),
        forall|i: int| 0 <= i < later.len() ==> later[i] != SlotOp::<T>::Register(id),
    ensures
        take_result(slots, id) == StoreEntry::<T>::Ok(slots[id]),
        !apply_all(taken(slots, id), later).contains_key(id),
        take_result(apply_all(taken(slots, id), later), id) == StoreEntry::<T>::Err(
            PerformError::NotFound,
        ),
    decreases later.len(),
{
    if later.len() > 0 {
        let earlier = later.drop_last();
        assert forall|i: int| 0 <= i < earlier.len() implies earlier[i] != SlotOp::<
            T,
        >::Register(id) by {
            assert(earlier[i] == later[i]);
        }
        lemma_single_delivery(slots, id, earlier);
        assert(later.last() == later[later.len() - 1]);
    }
}

/// A finished value is never overwritten: whatever is registered, completed
/// or taken, the slot holds the same value until a take of its identifier
/// carries it away.
pub proof fn lemma_finished_value_is_kept<T>(slots: SlotMap<T>, id: u128, ops: Seq<SlotOp<T>>)
    requires
        ready(slots, id),
        forall|i: int| 0 <= i < ops.len() ==> ops[i] != SlotOp::<T>::Take(id),
    ensures
        apply_all(slots, ops).contains_key(id),
        apply_all(slots, ops)[id] == slots[id],
    decreases ops.len(),
{
    if ops.len() > 0 {
        let earlier = ops.drop_last();
        assert forall|i: int| 0 <= i < earlier.len() implies earlier[i] != SlotOp::<T>::Take(
            id,
        ) by {
            assert(earlier[i] == ops[i]);
        }
        lemma_finished_value_is_kept(slots, id, earlier);
        assert(ops.last() == ops[ops.len() - 1]);
    }
}

/// A slot that waits keeps waiting until its own operation completes: takes
/// of it, however many, registrations and the completion of other
/// operations leave it empty and in place.
pub proof fn lemma_waiting_slot_waits<T>(slots: SlotMap<T>, id: u128, ops: Seq<SlotOp<T>>)
    requires
        pending(slots, id),
        forall|i: int|
            0 <= i < ops.len() ==> !(#[trigger] ops[i] is Complete && ops[i].target() == id),
    ensures
        pending(apply_all(slots, ops), id),
    decreases ops.len(),
{
    if ops.len() > 0 {
        let earlier = ops.drop_last();
        assert forall|i: int| 0 <= i < earlier.len() implies !(#[trigger] earlier[i] is Complete
            && earlier[i].target() == id) by {
            assert(earlier[i] == ops[i]);
        }
        lemma_waiting_slot_waits(slots, id, earlier);
        assert(ops.last() == ops[ops.len() - 1]);
    }
}

/// No value is lost. Take a registered operation whose slot waits. Polls
/// and other traffic may come before its completion, and other traffic
/// after it: the first take of the identifier after the completion returns
/// exactly the value that the operation produced.
pub proof fn lemma_no_loss<T>(
    slots: SlotMap<T>,
    id: u128,
    value: T,
    before: Seq<SlotOp<T>>,
    after: Seq<SlotOp<T>>,
)
    requires
        pending(slots, id),
        forall|i: int|
            0 <= i < before.len() ==> !(#[trigger] before[i] is Complete && before[i].target()
                == id),
        forall|i: int| 0 <= i < after.len() ==> after[i] != SlotOp::<T>::Take(id),
    ensures
        take_result(apply_all(completed(apply_all(slots, before), id, value), after), id)
            == StoreEntry::<T>::Ok(PerformState::Done(value)),
{
    lemma_waiting_slot_waits(slots, id, before);
    lemma_finished_value_is_kept(completed(apply_all(slots, before), id, value), id, after);
}

} // verus!
