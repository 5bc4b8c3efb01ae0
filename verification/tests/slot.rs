use objc_exception::{Exception, Recovery, Slot};
use std::cell::Cell;
use std::rc::Rc;

fn closed(addr: usize) -> Recovery {
    Recovery::Closed { stable: Exception::from_addr(addr) }
}

#[test]
fn new_slot_has_no_outcome() {
    let slot = Slot::new(|| 1u8);
    assert!(matches!(slot, Slot::Pending(_)));
    assert_eq!(slot.into_outcome(), None);
}

#[test]
fn call_stores_what_the_operation_returned() {
    let mut slot = Slot::new(|| 40u32 + 2);
    slot.call();
    assert!(matches!(slot, Slot::Success(42)));
    assert_eq!(slot.into_outcome(), Some(Ok(42)));
}

#[test]
fn operation_runs_once() {
    let runs = Rc::new(Cell::new(0u32));
    let counter = runs.clone();
    let mut slot = Slot::new(move || {
        counter.set(counter.get() + 1);
        counter.get()
    });
    slot.call();
    slot.call();
    slot.call();
    assert_eq!(runs.get(), 1);
    assert_eq!(slot.into_outcome(), Some(Ok(1)));
}

#[test]
fn take_hands_the_operation_out_once() {
    let mut slot = Slot::new(|| 5u8);
    let operation = slot.take();
    assert!(operation.is_some());
    assert!(matches!(slot, Slot::Running));
    assert!(slot.take().is_none());
    assert!(matches!(slot, Slot::Running));
    assert_eq!(operation.unwrap()(), 5);
    assert_eq!(slot.into_outcome(), None);
}

#[test]
fn call_after_take_runs_nothing() {
    let runs = Rc::new(Cell::new(0u32));
    let counter = runs.clone();
    let mut slot = Slot::new(move || counter.set(counter.get() + 1));
    let operation = slot.take();
    slot.call();
    assert_eq!(runs.get(), 0);
    assert!(matches!(slot, Slot::Running));
    drop(operation);
    assert_eq!(runs.get(), 0);
}

#[test]
fn take_leaves_a_settled_slot_alone() {
    let mut slot = Slot::new(|| 9u8);
    slot.call();
    assert!(slot.take().is_none());
    assert_eq!(slot.into_outcome(), Some(Ok(9)));
}

#[test]
fn catch_stores_into_a_running_slot() {
    let mut slot = Slot::new(|| 0u8);
    let _operation = slot.take();
    assert!(slot.catch(closed(0x1000)));
    assert!(matches!(slot, Slot::Failure(Exception::Object { addr: 0x1000 })));
    assert_eq!(
        slot.into_outcome(),
        Some(Err(Exception::Object { addr: 0x1000 }))
    );
}

#[test]
fn catch_stores_null() {
    let mut slot = Slot::new(|| 0u8);
    let _operation = slot.take();
    assert!(slot.catch(closed(0)));
    assert_eq!(slot.into_outcome(), Some(Err(Exception::Null)));
}

#[test]
fn catch_waits_for_the_catch_to_be_closed() {
    let object = Exception::from_addr(0x1000);
    let mut slot = Slot::new(|| 0u8);
    let _operation = slot.take();
    assert!(!slot.catch(Recovery::Landed { payload: 0x7000 }));
    assert!(!slot.catch(Recovery::Caught { transient: object }));
    assert!(!slot.catch(Recovery::Retained { stable: object }));
    assert!(matches!(slot, Slot::Running));
    assert!(slot.catch(Recovery::Closed { stable: object }));
    assert_eq!(slot.into_outcome(), Some(Err(object)));
}

#[test]
fn catch_does_not_drop_a_pending_operation() {
    let runs = Rc::new(Cell::new(0u32));
    let counter = runs.clone();
    let mut slot = Slot::new(move || {
        counter.set(counter.get() + 1);
        3u8
    });
    assert!(!slot.catch(closed(0x1000)));
    assert!(matches!(slot, Slot::Pending(_)));
    slot.call();
    assert_eq!(runs.get(), 1);
    assert_eq!(slot.into_outcome(), Some(Ok(3)));
}

#[test]
fn catch_does_not_overwrite_a_success() {
    let mut slot = Slot::new(|| "kept".to_string());
    slot.call();
    assert!(!slot.catch(closed(0x1000)));
    assert_eq!(slot.into_outcome(), Some(Ok("kept".to_string())));
}

#[test]
fn catch_does_not_overwrite_a_failure() {
    let mut slot = Slot::new(|| 0u8);
    let _operation = slot.take();
    assert!(slot.catch(closed(0x1000)));
    assert!(!slot.catch(closed(0x2000)));
    assert_eq!(
        slot.into_outcome(),
        Some(Err(Exception::Object { addr: 0x1000 }))
    );
}

#[test]
fn call_leaves_a_failure_alone() {
    let runs = Rc::new(Cell::new(0u32));
    let counter = runs.clone();
    let mut slot = Slot::new(move || counter.set(counter.get() + 1));
    let operation = slot.take();
    assert!(slot.catch(closed(0)));
    slot.call();
    drop(operation);
    assert_eq!(runs.get(), 0);
    assert_eq!(slot.into_outcome(), Some(Err(Exception::Null)));
}

#[test]
fn succeed_stores_into_a_running_slot() {
    let mut slot = Slot::new(|| 0u8);
    let _operation = slot.take();
    assert_eq!(slot.succeed(7), Ok(()));
    assert_eq!(slot.into_outcome(), Some(Ok(7)));
}

#[test]
fn succeed_hands_the_value_back_elsewhere() {
    let mut pending = Slot::new(|| 0u8);
    assert_eq!(pending.succeed(7), Err(7));
    assert!(matches!(pending, Slot::Pending(_)));

    let mut success = Slot::new(|| 1u8);
    success.call();
    assert_eq!(success.succeed(7), Err(7));
    assert_eq!(success.into_outcome(), Some(Ok(1)));

    let mut failure = Slot::new(|| 1u8);
    let _operation = failure.take();
    assert!(failure.catch(closed(0x1000)));
    assert_eq!(failure.succeed(7), Err(7));
    assert_eq!(
        failure.into_outcome(),
        Some(Err(Exception::Object { addr: 0x1000 }))
    );
}
