use std::cell::RefCell;
use std::rc::Rc;

use plcnext::lifecycle::{Callback, OperationLog, PlcOperation, System};

fn recorder(seen: &Rc<RefCell<Vec<PlcOperation>>>) -> Callback<impl Fn(PlcOperation)> {
    let seen = seen.clone();
    Callback::new(move |op| seen.borrow_mut().push(op))
}

#[test]
fn cleared_handler_is_not_invoked() {
    let seen = Rc::new(RefCell::new(Vec::new()));
    let mut system = System::new();
    assert!(system.set_handler(Some(recorder(&seen))));
    assert!(system.handle_event(1));
    assert!(!system.set_handler(None));
    assert!(!system.handle_event(3));
    assert!(!system.handle_event(6));
    assert_eq!(*seen.borrow(), vec![PlcOperation::Load]);
}

#[test]
fn replaced_handler_stops_receiving() {
    let first = Rc::new(RefCell::new(Vec::new()));
    let second = Rc::new(RefCell::new(Vec::new()));
    let mut system = System::new();
    system.set_handler(Some(recorder(&first)));
    system.handle_event(2);
    system.set_handler(Some(recorder(&second)));
    system.handle_event(7);
    assert_eq!(*first.borrow(), vec![PlcOperation::Setup]);
    assert_eq!(*second.borrow(), vec![PlcOperation::Reset]);
}

#[test]
fn operation_codes() {
    let expected = [
        PlcOperation::NoOperation,
        PlcOperation::Load,
        PlcOperation::Setup,
        PlcOperation::StartCold,
        PlcOperation::StartWarm,
        PlcOperation::StartHot,
        PlcOperation::Stop,
        PlcOperation::Reset,
        PlcOperation::Unload,
    ];
    for (code, op) in expected.iter().enumerate() {
        assert_eq!(PlcOperation::from_code(code as u32), *op);
    }
    assert_eq!(PlcOperation::from_code(9), PlcOperation::Unknown);
    assert_eq!(PlcOperation::from_code(99), PlcOperation::Unknown);
}

#[test]
fn operation_log_receives_decoded_operations_once() {
    let mut system = System::new();
    system.set_handler(Some(OperationLog::new()));
    assert!(system.handle_event(5));
    assert!(system.handle_event(42));
    assert!(system.handle_event(8));
    let log = system.handler.as_ref().unwrap();
    assert_eq!(log.operations, vec![PlcOperation::StartHot, PlcOperation::Unknown, PlcOperation::Unload]);
    system.set_handler(Some(OperationLog::new()));
    system.handle_event(0);
    assert_eq!(system.handler.unwrap().operations, vec![PlcOperation::NoOperation]);
}
