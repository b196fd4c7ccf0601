//! The request gate: at most one operation in flight for one consumer.
//!
//! A polling loop calls its gate on every tick. A gate says when an
//! operation has to be launched, which is once per value, and hands the
//! value out when it has arrived. It decides; launching the operation is
//! the caller's part.

use crate::id::is_random_uuid;
use crate::id::SessionId;
use crate::session::Session;
use crate::slots::take_result;
use crate::slots::taken;
use crate::slots::Slots;
use crate::state::value_or_error;
use crate::state::PerformState;
use crate::state::StoreEntry;
use crate::store::or_locked;
use crate::store::slots_under;
use crate::store::ResultStore;
use vstd::prelude::*;

verus! {

/// Whether an operation is under way.
#[derive(Debug, Clone, Copy, PartialEq, Eq, Structural)]
pub enum Progress {
    /// Nothing is under way; the next request launches.
    Idle,
    /// One operation is under way; requests are ignored until its value was
    /// handed out.
    InFlight,
}

/// What a gate knows.
#[derive(Debug, Clone, Copy, PartialEq, Eq, Structural)]
pub enum GateState {
    /// Nothing is under way. A session that no operation has used yet waits
    /// for the next request; after a delivery there is none, as a session
    /// serves one value.
    Idle(Option<SessionId>),
    /// The operation of this session is under way.
    InFlight(SessionId),
}

/// The progress that a state stands for.
pub open spec fn progress_of(state: GateState) -> Progress {
    match state {
        GateState::Idle(_) => Progress::Idle,
        GateState::InFlight(_) => Progress::InFlight,
    }
}

/// The session that a request asks the caller to launch under: from an idle
/// gate the session that waits, or `fresh` where none does; none while an
/// operation is in flight.
pub open spec fn launched(state: GateState, fresh: SessionId) -> Option<SessionId> {
    match state {
        GateState::Idle(Some(waiting)) => Some(waiting),
        GateState::Idle(None) => Some(fresh),
        GateState::InFlight(_) => None,
    }
}

/// The state after a request that would draw the identifier `fresh`.
pub open spec fn after_request(state: GateState, fresh: SessionId) -> GateState {
    match launched(state, fresh) {
        Some(session) => GateState::InFlight(session),
        None => state,
    }
}

/// The value that a take hands to the consumer: that of a finished
/// operation, and nothing otherwise.
pub open spec fn handed_out<T>(taken: StoreEntry<T>) -> Option<T> {
    match taken {
        Ok(PerformState::Done(value)) => Some(value),
        _ => None,
    }
}

/// The state after a take came back: a value ends the flight and spends the
/// session; anything else changes nothing.
pub open spec fn after_settle<T>(state: GateState, taken: StoreEntry<T>) -> GateState {
    if state is InFlight && handed_out(taken) is Some {
        GateState::Idle(None)
    } else {
        state
    }
}

/// What one tick of a polling loop brought.
pub struct Tick<T> {
    /// The session under which the caller has to launch its operation now.
    pub launch: Option<SessionId>,
    /// The value that arrived.
    pub value: Option<T>,
}

/// A gate in front of one store.
#[verifier::reject_recursive_types(T)]
pub struct RequestGate<'a, T> {
    store: &'a ResultStore<T>,
    state: GateState,
}

impl<'a, T> View for RequestGate<'a, T> {
    type V = GateState;

    closed spec fn view(&self) -> GateState {
        self.state
    }
}

impl<'a, T> RequestGate<'a, T> {
    /// The store behind this gate.
    pub closed spec fn home(&self) -> &'a ResultStore<T> {
        self.store
    }

    /// An idle gate around `session`, which the first request will use.
    pub fn new(session: Session<'a, T>) -> (gate: Self)
        ensures
            gate@ == GateState::Idle(Some(session.ident())),
            gate.home() == session.home(),
    {
        RequestGate { store: session.store(), state: GateState::Idle(Some(session.id())) }
    }

    /// Whether an operation is under way.
    pub fn progress(&self) -> (progress: Progress)
        ensures
            progress == progress_of(self@),
    {
        match self.state {
            GateState::Idle(_) => Progress::Idle,
            GateState::InFlight(_) => Progress::InFlight,
        }
    }

    /// What this gate knows.
    pub fn state(&self) -> (state: GateState)
        ensures
            state == self@,
    {
        self.state
    }

    /// Asks for a value. An idle gate goes in flight and returns the session
    /// under which the caller launches its operation, once: the session that
    /// waits, or one on a new identifier where the last was spent. A gate in
    /// flight does nothing and returns nothing.
    pub fn request(&mut self) -> (launch: Option<SessionId>)
        ensures
            final(self).home() == old(self).home(),
            match launch {
                Some(session) => launch == launched(old(self)@, session) && final(self)@
                    == after_request(old(self)@, session) && (old(self)@ == GateState::Idle(None)
                    ==> is_random_uuid(session@)),
                None => old(self)@ is InFlight && final(self)@ == old(self)@,
            },
    {
        match self.state {
            GateState::InFlight(_) => None,
            GateState::Idle(Some(waiting)) => {
                self.state = GateState::InFlight(waiting);
                Some(waiting)
            },
            GateState::Idle(None) => {
                let session = Session::try_activate(self.store);
                self.state = GateState::InFlight(session.id());
                Some(session.id())
            },
        }
    }

    /// Takes note of what a take returned. A finished value is handed out,
    /// and it ends the flight; anything else means "not yet" and changes
    /// nothing.
    pub fn settle(&mut self, taken: StoreEntry<T>) -> (value: Option<T>)
        ensures
            value == handed_out(taken),
            final(self)@ == after_settle(old(self)@, taken),
            final(self).home() == old(self).home(),
    {
        match value_or_error(taken) {
            Ok(value) => {
                match self.state {
                    GateState::InFlight(_) => {
                        self.state = GateState::Idle(None);
                    },
                    GateState::Idle(_) => {},
                }
                Some(value)
            },
            Err(_) => None,
        }
    }

    /// The step of a poll on the slots, once the lock is held. An idle gate
    /// leaves them alone. A gate in flight takes under the identifier of its
    /// session and under no other: a finished value leaves the slots, ends
    /// the flight and is handed out; a slot that waits or is missing means
    /// "not yet".
    pub fn poll_under(&mut self, slots: &mut Slots<T>) -> (value: Option<T>)
        ensures
            old(self)@ is Idle ==> value is None && final(slots)@ == old(slots)@,
            old(self)@ matches GateState::InFlight(id) ==> value == handed_out(
                take_result(old(slots)@, id@),
            ) && final(slots)@ == taken(old(slots)@, id@),
            final(self)@ == (if value is Some {
                GateState::Idle(None)
            } else {
                old(self)@
            }),
            final(self).home() == old(self).home(),
    {
        match self.state {
            GateState::Idle(_) => None,
            GateState::InFlight(id) => {
                let found = slots.take(id);
                self.settle(found)
            },
        }
    }

    /// Looks for the value without waiting. An idle gate has nothing to look
    /// for. A gate in flight asks for the lock of its store: where it is
    /// free, the step on the slots decides; a held lock means "not yet".
    pub fn poll(&mut self) -> (value: Option<T>)
        ensures
            old(self)@ is Idle ==> value is None,
            final(self)@ == (if value is Some {
                GateState::Idle(None)
            } else {
                old(self)@
            }),
            final(self).home() == old(self).home(),
    {
        match self.state {
            GateState::Idle(_) => None,
            GateState::InFlight(_) => {
                let store = self.store;
                match or_locked(store.mutex().try_lock()) {
                    Ok(mut guard) => {
                        let slots = slots_under(&mut guard);
                        self.poll_under(slots)
                    },
                    Err(error) => self.settle(Err(error)),
                }
            },
        }
    }

    /// One tick of a polling loop: a request where this gate is idle, then a
    /// poll in any case.
    pub fn poll_or_request(&mut self) -> (tick: Tick<T>)
        ensures
            final(self).home() == old(self).home(),
            match tick.launch {
                Some(session) => tick.launch == launched(old(self)@, session) && (old(self)@
                    == GateState::Idle(None) ==> is_random_uuid(session@)),
                None => old(self)@ is InFlight,
            },
            final(self)@ == (if tick.value is Some {
                GateState::Idle(None)
            } else {
                match tick.launch {
                    Some(session) => GateState::InFlight(session),
                    None => old(self)@,
                }
            }),
    {
        let launch = self.request();
        let value = self.poll();
        Tick { launch, value }
    }
}

/// One call on a gate, as a value.
pub enum GateEvent<T> {
    /// `RequestGate::request`, with the identifier that it drew or would
    /// have drawn.
    Request(SessionId),
    /// `RequestGate::poll`, with what the take returned or would have
    /// returned.
    Poll(StoreEntry<T>),
}

/// The state after one call.
pub open spec fn after_event<T>(state: GateState, event: GateEvent<T>) -> GateState {
    match event {
        GateEvent::Request(fresh) => after_request(state, fresh),
        GateEvent::Poll(taken) => after_settle(state, taken),
    }
}

/// Whether the call asks the caller to launch an operation.
pub open spec fn launches<T>(state: GateState, event: GateEvent<T>) -> bool {
    match event {
        GateEvent::Request(fresh) => launched(state, fresh) is Some,
        GateEvent::Poll(_) => false,
    }
}

/// Whether the call hands a value out.
pub open spec fn delivers<T>(state: GateState, event: GateEvent<T>) -> bool {
    match event {
        GateEvent::Request(_) => false,
        GateEvent::Poll(taken) => state is InFlight && handed_out(taken) is Some,
    }
}

/// The state after a run of calls, the first of `events` first.
pub open spec fn after_events<T>(state: GateState, events: Seq<GateEvent<T>>) -> GateState
    decreases events.len(),
{
    if events.len() == 0 {
        state
    } else {
        after_event(after_events(state, events.drop_last()), events.last())
    }
}

/// How many operations a run of calls launches.
pub open spec fn launch_count<T>(state: GateState, events: Seq<GateEvent<T>>) -> nat
    decreases events.len(),
{
    if events.len() == 0 {
        0
    } else {
        let earlier = events.drop_last();
        let last: nat = if launches(after_events(state, earlier), events.last()) {
            1
        } else {
            0
        };
        launch_count(state, earlier) + last
    }
}

/// How many values a run of calls hands out.
pub open spec fn delivery_count<T>(state: GateState, events: Seq<GateEvent<T>>) -> nat
    decreases events.len(),
{
    if events.len() == 0 {
        0
    } else {
        let earlier = events.drop_last();
        let last: nat = if delivers(after_events(state, earlier), events.last()) {
            1
        } else {
            0
        };
        delivery_count(state, earlier) + last
    }
}

/// The number of operations in flight in a state: one or none.
pub open spec fn outstanding(state: GateState) -> nat {
    match state {
        GateState::Idle(_) => 0,
        GateState::InFlight(_) => 1,
    }
}

/// Never two operations in flight. Over any run of requests and polls,
/// every launch is matched by a delivery but for the one operation that is
/// still in flight at the end. From an idle gate the launches are therefore
/// the deliveries, or one more.
pub proof fn lemma_one_in_flight<T>(state: GateState, events: Seq<GateEvent<T>>)
    ensures
        outstanding(state) + launch_count(state, events) == delivery_count(state, events)
            + outstanding(after_events(state, events)),
        outstanding(after_events(state, events)) <= 1,
    decreases events.len(),
{
    if events.len() > 0 {
        lemma_one_in_flight(state, events.drop_last());
    }
}

/// Requests in a row launch once. While a gate is in flight none of them
/// launches anything and the session in flight stays; from an idle gate the
/// first one launches, and the others do nothing.
pub proof fn lemma_repeated_requests_launch_once<T>(state: GateState, events: Seq<GateEvent<T>>)
    requires
        forall|i: int| 0 <= i < events.len() ==> #[trigger] events[i] is Request,
    ensures
        state is InFlight ==> launch_count(state, events) == 0 && after_events(state, events)
            == state,
        state is Idle && events.len() > 0 ==> launch_count(state, events) == 1 && after_events(
            state,
            events,
        ) == after_request(state, events[0]->Request_0),
    decreases events.len(),
{
    if events.len() > 0 {
        let earlier = events.drop_last();
        assert forall|i: int| 0 <= i < earlier.len() implies #[trigger] earlier[i] is Request by {
            assert(earlier[i] == events[i]);
        }
        lemma_repeated_requests_launch_once(state, earlier);
        assert(events.last() == events[events.len() - 1]);
        assert(events.last() is Request);
        if earlier.len() > 0 {
            assert(earlier[0] == events[0]);
        } else {
            assert(launch_count(state, earlier) == 0);
            assert(after_events(state, earlier) == state);
        }
    }
}

/// A poll that hands a value out leaves its gate idle, and the request
/// after it launches a new operation under the identifier that it draws.
/// The value handed out is the one that the take found.
pub proof fn lemma_idle_after_delivery<T>(session: SessionId, value: T, fresh: SessionId)
    ensures
        handed_out(StoreEntry::<T>::Ok(PerformState::Done(value))) == Some(value),
        progress_of(
            after_settle(
                GateState::InFlight(session),
                StoreEntry::<T>::Ok(PerformState::Done(value)),
            ),
        ) == Progress::Idle,
        launched(
            after_settle(
                GateState::InFlight(session),
                StoreEntry::<T>::Ok(PerformState::Done(value)),
            ),
            fresh,
        ) == Some(fresh),
        after_request(
            after_settle(
                GateState::InFlight(session),
                StoreEntry::<T>::Ok(PerformState::Done(value)),
            ),
            fresh,
        ) == GateState::InFlight(fresh),
{
}

/// What is not a finished value is absorbed: an empty slot, a held lock and
/// a slot that is not there all hand nothing out and leave a gate as it
/// is, to ask again on the next tick.
pub proof fn lemma_not_ready_is_absorbed<T>(state: GateState, taken: StoreEntry<T>)
    requires
        !(taken matches Ok(PerformState::Done(_))),
    ensures
        handed_out(taken) is None,
        after_settle(state, taken) == state,
{
}

} // verus!
