use std::cell::Cell;
use std::cell::RefCell;
use std::sync::Arc;

use multi_rpc::builder::ServerBuilder;
use multi_rpc::error::OrchestratorError;
use multi_rpc::runner::ServerRunner;

#[test]
fn builder_starts_the_listeners_in_order() {
    let builder: ServerBuilder<String, &str> = ServerBuilder::new("Chauncey".to_string());
    let runner = builder
        .add_protocol("stream")
        .add_protocol("rest")
        .add_protocol("json-rpc")
        .build(|factory, service| Some((factory, service)))
        .unwrap();
    let names: Vec<&str> = runner.tasks().iter().map(|task| task.0).collect();
    assert_eq!(names, vec!["stream", "rest", "json-rpc"]);
    assert_eq!(runner.len(), 3);
    for (_, service) in runner.tasks() {
        assert_eq!(*service.try_lock().unwrap(), "Chauncey");
    }
}

#[test]
fn every_listener_gets_the_one_service() {
    let builder: ServerBuilder<Vec<u32>, u32> = ServerBuilder::new(vec![]);
    let runner = builder
        .add_protocol(1)
        .add_protocol(2)
        .build(|_, service| Some(service))
        .unwrap();
    let first = &runner.tasks()[0];
    let second = &runner.tasks()[1];
    assert!(Arc::ptr_eq(first, second));
    {
        let mut held = first.try_lock().unwrap();
        assert!(second.try_lock().is_err());
        held.push(1);
    }
    second.try_lock().unwrap().push(2);
    assert_eq!(*first.try_lock().unwrap(), vec![1, 2]);
}

#[test]
fn builder_without_protocols_starts_nothing() {
    let calls = Cell::new(0);
    let builder: ServerBuilder<u32, u8> = ServerBuilder::new(5);
    let runner = builder
        .build(|factory, _| {
            calls.set(calls.get() + 1);
            Some(factory)
        })
        .unwrap();
    assert_eq!(calls.get(), 0);
    assert_eq!(runner.len(), 0);
    let aborted = RefCell::new(Vec::new());
    assert_eq!(runner.run(Ok(()), |task| aborted.borrow_mut().push(task)), Ok(()));
    assert!(aborted.borrow().is_empty());
}

#[test]
fn rejected_task_fails_the_build() {
    let calls = Cell::new(0);
    let builder: ServerBuilder<u32, u8> = ServerBuilder::new(5);
    let outcome = builder.add_protocol(1).add_protocol(2).add_protocol(3).build(|factory, _| {
        calls.set(calls.get() + 1);
        if factory == 2 {
            None
        } else {
            Some(factory)
        }
    });
    assert!(matches!(outcome, Err(OrchestratorError::SpawnFailed)));
    assert_eq!(calls.get(), 3);
}

#[test]
fn one_rejected_task_makes_no_runner() {
    let outcome = ServerRunner::started(vec![Some(10u32), None, Some(12)]);
    assert!(matches!(outcome, Err(OrchestratorError::SpawnFailed)));
    let outcome = ServerRunner::<u32>::started(vec![None]);
    assert!(matches!(outcome, Err(OrchestratorError::SpawnFailed)));
    let runner = ServerRunner::<u32>::started(vec![]).unwrap();
    assert_eq!(runner.len(), 0);
}

#[test]
fn shutdown_aborts_every_task() {
    let runner = ServerRunner::started(vec![Some(10u32), Some(11), Some(12)]).unwrap();
    assert_eq!(runner.len(), 3);
    assert_eq!(runner.tasks(), &vec![10, 11, 12]);
    let aborted = RefCell::new(Vec::new());
    assert_eq!(runner.run(Ok(()), |task| aborted.borrow_mut().push(task)), Ok(()));
    assert_eq!(*aborted.borrow(), vec![10, 11, 12]);
}

#[test]
fn failed_wait_for_the_signal_aborts_nothing() {
    let runner = ServerRunner::started(vec![Some(10u32)]).unwrap();
    let aborted = RefCell::new(Vec::new());
    let ended = runner.run(Err("no signal handler".to_string()), |task| aborted.borrow_mut().push(task));
    assert_eq!(ended, Err("no signal handler".to_string()));
    assert!(aborted.borrow().is_empty());
}
