use perform_wasm::error::PerformError;
use perform_wasm::gate::GateState;
use perform_wasm::gate::Progress;
use perform_wasm::gate::RequestGate;
use perform_wasm::id::SessionId;
use perform_wasm::session::Session;
use perform_wasm::state::PerformState;
use perform_wasm::store::ResultStore;

/// Launches `operation` the way a caller of a gate does: only where asked
/// for it, and to completion at once.
fn request_with<F>(gate: &mut RequestGate<String>, store: &ResultStore<String>, operation: F)
where
    F: FnOnce() -> String,
{
    if let Some(id) = gate.request() {
        let value = operation();
        let mut slots = store.mutex().try_lock().unwrap();
        slots.register(id);
        assert_eq!(slots.complete(id, value), Ok(()));
    }
}

#[test]
fn a_new_gate_is_idle() {
    let store: ResultStore<String> = ResultStore::new();
    let mut gate = RequestGate::new(Session::try_activate(&store));
    assert_eq!(gate.progress(), Progress::Idle);
    assert!(matches!(gate.state(), GateState::Idle(Some(_))));
    assert_eq!(gate.poll(), None);
    assert_eq!(gate.progress(), Progress::Idle);
}

#[test]
fn the_first_request_uses_the_session_given() {
    let store: ResultStore<String> = ResultStore::new();
    let session = Session::attach(&store, SessionId::from_u128(77));
    let mut gate = RequestGate::new(session);
    assert_eq!(gate.state(), GateState::Idle(Some(SessionId::from_u128(77))));
    assert_eq!(gate.request(), Some(SessionId::from_u128(77)));
    assert_eq!(gate.state(), GateState::InFlight(SessionId::from_u128(77)));
    assert_eq!(gate.request(), None);
    assert_eq!(gate.state(), GateState::InFlight(SessionId::from_u128(77)));
}

#[test]
fn a_request_puts_one_session_in_flight() {
    let store: ResultStore<String> = ResultStore::new();
    let mut gate = RequestGate::new(Session::try_activate(&store));
    let launch = gate.request();
    assert!(launch.is_some());
    assert_eq!(gate.state(), GateState::InFlight(launch.unwrap()));
    assert_eq!(gate.progress(), Progress::InFlight);
    let slots = store.mutex().try_lock().unwrap();
    assert_eq!(slots.len(), 1);
    assert!(slots.is_pending(launch.unwrap()));
}

#[test]
fn a_value_arrives_through_the_gate() {
    let store: ResultStore<String> = ResultStore::new();
    let mut gate = RequestGate::new(Session::try_activate(&store));
    request_with(&mut gate, &store, || "hello".to_string());
    assert_eq!(gate.poll(), Some("hello".to_string()));
    assert_eq!(gate.progress(), Progress::Idle);
    assert_eq!(gate.poll(), None);
    assert_eq!(gate.progress(), Progress::Idle);
}

#[test]
fn a_poll_before_the_value_says_not_yet() {
    let store: ResultStore<String> = ResultStore::new();
    let mut gate = RequestGate::new(Session::try_activate(&store));
    let id = gate.request().unwrap();
    assert_eq!(gate.poll(), None);
    assert_eq!(gate.poll(), None);
    assert_eq!(gate.progress(), Progress::InFlight);
    assert_eq!(
        store.mutex().try_lock().unwrap().complete(id, "late".to_string()),
        Ok(())
    );
    assert_eq!(gate.poll(), Some("late".to_string()));
    assert_eq!(gate.progress(), Progress::Idle);
}

#[test]
fn repeated_requests_launch_once() {
    let store: ResultStore<String> = ResultStore::new();
    let mut gate = RequestGate::new(Session::try_activate(&store));
    let mut launched = 0;
    for _ in 0..10 {
        if gate.request().is_some() {
            launched += 1;
        }
    }
    assert_eq!(launched, 1);
    assert_eq!(gate.progress(), Progress::InFlight);
    assert_eq!(store.mutex().try_lock().unwrap().len(), 1);
}

#[test]
fn the_second_of_two_operations_never_runs() {
    let store: ResultStore<String> = ResultStore::new();
    let mut gate = RequestGate::new(Session::try_activate(&store));
    let mut first_ran = 0;
    let mut second_ran = 0;
    request_with(&mut gate, &store, || {
        first_ran += 1;
        "first".to_string()
    });
    request_with(&mut gate, &store, || {
        second_ran += 1;
        "second".to_string()
    });
    assert_eq!(first_ran, 1);
    assert_eq!(second_ran, 0);
    assert_eq!(gate.poll(), Some("first".to_string()));
    assert_eq!(gate.poll(), None);
}

#[test]
fn the_gate_launches_again_after_a_delivery() {
    let store: ResultStore<String> = ResultStore::new();
    let mut gate = RequestGate::new(Session::try_activate(&store));
    let first = gate.request().unwrap();
    assert_eq!(
        store.mutex().try_lock().unwrap().complete(first, "one".to_string()),
        Ok(())
    );
    assert_eq!(gate.poll(), Some("one".to_string()));
    let second = gate.request();
    assert!(second.is_some());
    assert_ne!(second, Some(first));
    assert_eq!(gate.progress(), Progress::InFlight);
    assert_eq!(
        store.mutex().try_lock().unwrap().complete(second.unwrap(), "two".to_string()),
        Ok(())
    );
    assert_eq!(gate.poll(), Some("two".to_string()));
    assert_eq!(store.mutex().try_lock().unwrap().len(), 0);
}

#[test]
fn a_poll_under_a_held_lock_says_not_yet() {
    let store: ResultStore<String> = ResultStore::new();
    let mut gate = RequestGate::new(Session::try_activate(&store));
    let id = gate.request().unwrap();
    let mut writer = store.mutex().try_lock().unwrap();
    assert_eq!(writer.complete(id, "held".to_string()), Ok(()));
    assert_eq!(gate.poll(), None);
    assert_eq!(gate.progress(), Progress::InFlight);
    drop(writer);
    assert_eq!(gate.poll(), Some("held".to_string()));
}

#[test]
fn a_request_under_a_held_lock_still_goes_in_flight() {
    let store: ResultStore<String> = ResultStore::new();
    let mut gate = RequestGate::new(Session::try_activate(&store));
    let spent = gate.request().unwrap();
    assert_eq!(
        store.mutex().try_lock().unwrap().complete(spent, "spent".to_string()),
        Ok(())
    );
    assert_eq!(gate.poll(), Some("spent".to_string()));
    let guard = store.mutex().try_lock().unwrap();
    let launch = gate.request();
    assert!(launch.is_some());
    assert_eq!(gate.request(), None);
    drop(guard);
    assert_eq!(gate.poll(), None);
    assert_eq!(gate.progress(), Progress::InFlight);
    {
        let mut slots = store.mutex().try_lock().unwrap();
        assert!(slots.register(launch.unwrap()));
        assert_eq!(slots.complete(launch.unwrap(), "seen".to_string()), Ok(()));
    }
    assert_eq!(gate.poll(), Some("seen".to_string()));
}

#[test]
fn settling_hands_out_only_finished_values() {
    let store: ResultStore<u32> = ResultStore::new();
    let mut gate = RequestGate::new(Session::try_activate(&store));
    let launch = gate.request().unwrap();
    assert_eq!(gate.settle(Ok(PerformState::Empty)), None);
    assert_eq!(gate.state(), GateState::InFlight(launch));
    assert_eq!(gate.settle(Err(PerformError::Locked)), None);
    assert_eq!(gate.state(), GateState::InFlight(launch));
    assert_eq!(gate.settle(Err(PerformError::NotFound)), None);
    assert_eq!(gate.state(), GateState::InFlight(launch));
    assert_eq!(gate.settle(Err(PerformError::Empty)), None);
    assert_eq!(gate.progress(), Progress::InFlight);
    assert_eq!(gate.settle(Ok(PerformState::Done(200))), Some(200));
    assert_eq!(gate.state(), GateState::Idle(None));
    assert_eq!(gate.progress(), Progress::Idle);
}

#[test]
fn settling_an_idle_gate_keeps_its_session() {
    let store: ResultStore<u32> = ResultStore::new();
    let mut gate = RequestGate::new(Session::attach(&store, SessionId::from_u128(8)));
    assert_eq!(gate.settle(Ok(PerformState::Done(1))), Some(1));
    assert_eq!(gate.state(), GateState::Idle(Some(SessionId::from_u128(8))));
    assert_eq!(gate.settle(Err(PerformError::NotFound)), None);
    assert_eq!(gate.state(), GateState::Idle(Some(SessionId::from_u128(8))));
}

#[test]
fn one_tick_requests_and_polls() {
    let store: ResultStore<String> = ResultStore::new();
    let mut gate = RequestGate::new(Session::try_activate(&store));
    let first = gate.poll_or_request();
    assert!(first.launch.is_some());
    assert_eq!(first.value, None);
    assert_eq!(gate.state(), GateState::InFlight(first.launch.unwrap()));
    let second = gate.poll_or_request();
    assert_eq!(second.launch, None);
    assert_eq!(second.value, None);
    let id: SessionId = first.launch.unwrap();
    assert_eq!(
        store.mutex().try_lock().unwrap().complete(id, "tick".to_string()),
        Ok(())
    );
    let third = gate.poll_or_request();
    assert_eq!(third.launch, None);
    assert_eq!(third.value, Some("tick".to_string()));
    assert_eq!(gate.progress(), Progress::Idle);
    let fourth = gate.poll_or_request();
    assert!(fourth.launch.is_some());
    assert_ne!(fourth.launch, first.launch);
    assert_eq!(fourth.value, None);
}

#[test]
fn two_gates_on_one_store_do_not_meet() {
    let store: ResultStore<String> = ResultStore::new();
    let mut left = RequestGate::new(Session::try_activate(&store));
    let mut right = RequestGate::new(Session::try_activate(&store));
    request_with(&mut left, &store, || "left".to_string());
    request_with(&mut right, &store, || "right".to_string());
    assert_eq!(right.poll(), Some("right".to_string()));
    assert_eq!(left.poll(), Some("left".to_string()));
    assert_eq!(left.poll(), None);
    assert_eq!(right.poll(), None);
}

#[test]
fn the_step_on_the_slots_takes_under_the_session_in_flight() {
    let store: ResultStore<String> = ResultStore::new();
    let mine = SessionId::from_u128(5);
    let other = SessionId::from_u128(0);
    let mut gate = RequestGate::new(Session::attach(&store, mine));
    let mut slots: perform_wasm::Slots<String> = perform_wasm::Slots::new();
    slots.register(other);
    assert_eq!(slots.complete(other, "other".to_string()), Ok(()));
    slots.register(mine);
    assert_eq!(gate.request(), Some(mine));
    assert_eq!(gate.poll_under(&mut slots), None);
    assert_eq!(gate.state(), GateState::InFlight(mine));
    assert!(slots.is_pending(mine));
    assert_eq!(slots.complete(mine, "mine".to_string()), Ok(()));
    assert_eq!(gate.poll_under(&mut slots), Some("mine".to_string()));
    assert_eq!(gate.state(), GateState::Idle(None));
    assert!(!slots.contains(mine));
    assert!(slots.is_ready(other));
    assert_eq!(slots.len(), 1);
}

#[test]
fn the_step_on_the_slots_leaves_them_alone_when_idle() {
    let store: ResultStore<String> = ResultStore::new();
    let mine = SessionId::from_u128(5);
    let mut gate = RequestGate::new(Session::attach(&store, mine));
    let mut slots: perform_wasm::Slots<String> = perform_wasm::Slots::new();
    slots.register(mine);
    assert_eq!(slots.complete(mine, "early".to_string()), Ok(()));
    assert_eq!(gate.poll_under(&mut slots), None);
    assert_eq!(gate.state(), GateState::Idle(Some(mine)));
    assert!(slots.is_ready(mine));
}

#[test]
fn the_step_on_the_slots_waits_for_a_missing_slot() {
    let store: ResultStore<String> = ResultStore::new();
    let mine = SessionId::from_u128(5);
    let mut gate = RequestGate::new(Session::attach(&store, mine));
    let mut slots: perform_wasm::Slots<String> = perform_wasm::Slots::new();
    slots.register(SessionId::from_u128(0));
    assert_eq!(slots.complete(SessionId::from_u128(0), "zero".to_string()), Ok(()));
    assert_eq!(gate.request(), Some(mine));
    assert_eq!(gate.poll_under(&mut slots), None);
    assert_eq!(gate.state(), GateState::InFlight(mine));
    assert_eq!(slots.len(), 1);
    assert!(slots.is_ready(SessionId::from_u128(0)));
}
