//! The builder: one service, shared by the listeners of all protocols.
//!
//! The service stands behind one lock. A listener takes the lock for the
//! call of a method and for nothing else, so that at most one method of the
//! service runs at a time, whatever the protocol the call came over.

use std::sync::Arc;
use vstd::prelude::*;
use crate::error::OrchestratorError;
use crate::runner::ServerRunner;

verus! {

#[verifier::external_type_specification]
#[verifier::external_body]
#[verifier::reject_recursive_types(T)]
pub struct ExMutex<T: ?Sized>(tokio::sync::Mutex<T>);

/// `tokio::sync::Mutex::new`: a lock around `service`. Nothing is claimed
/// of the lock.
#[verifier::external_body]
fn new_lock<S>(service: S) -> (lock: tokio::sync::Mutex<S>) {
    tokio::sync::Mutex::new(service)
}

/// `Arc::clone`: one more handle to the lock that `handle` points at. The
/// contract claims that both handles stand for the same lock.
#[verifier::external_body]
fn share<S>(handle: &Arc<tokio::sync::Mutex<S>>) -> (copy: Arc<tokio::sync::Mutex<S>>)
    ensures
        copy == *handle,
{
    Arc::clone(handle)
}

/// Collects the listeners that will serve one service. A listener comes as
/// its factory: what makes the listener, once, from a handle to the service.
#[verifier::reject_recursive_types(S)]
pub struct ServerBuilder<S, F> {
    service: Arc<tokio::sync::Mutex<S>>,
    task_factories: Vec<F>,
}

impl<S, F> ServerBuilder<S, F> {
    /// The factories added so far, in order.
    pub closed spec fn factories(&self) -> Seq<F> {
        self.task_factories@
    }

    /// The handle to the shared service.
    pub closed spec fn shared(&self) -> Arc<tokio::sync::Mutex<S>> {
        self.service
    }

    /// A builder for `service`, with no protocol yet.
    pub fn new(service: S) -> (builder: Self)
        ensures
            builder.factories() == Seq::<F>::empty(),
    {
        ServerBuilder { service: Arc::new(new_lock(service)), task_factories: Vec::new() }
    }

    /// Adds the factory of one protocol's listener. Nothing is started.
    pub fn add_protocol(self, factory: F) -> (builder: Self)
        ensures
            builder.factories() == self.factories().push(factory),
            builder.shared() == self.shared(),
    {
        let mut builder = self;
        builder.task_factories.push(factory);
        builder
    }

    /// Hands every factory to `spawn`, once and in the order in which the
    /// factories were added, each with a handle to the one service.
    fn spawn_all<H, Sp: Fn(F, Arc<tokio::sync::Mutex<S>>) -> Option<H>>(self, spawn: &Sp) -> (spawned:
        Vec<Option<H>>)
        requires
            forall|f: F, s: Arc<tokio::sync::Mutex<S>>| spawn.requires((f, s)),
        ensures
            spawned@.len() == self.factories().len(),
            forall|i: int|
                0 <= i < spawned@.len() ==> spawn.ensures(
                    (self.factories()[i], self.shared()),
                    #[trigger] spawned@[i],
                ),
    {
        let ghost factories = self.factories();
        let service = self.service;
        let mut spawned: Vec<Option<H>> = Vec::new();
        for factory in it: self.task_factories
            invariant
                it.seq() == factories,
                spawned.len() == it.index(),
                forall|f: F, s: Arc<tokio::sync::Mutex<S>>| spawn.requires((f, s)),
                forall|i: int|
                    0 <= i < it.index() ==> spawn.ensures(
                        (factories[i], service),
                        #[trigger] spawned@[i],
                    ),
        {
            let outcome = spawn(factory, share(&service));
            spawned.push(outcome);
        }
        spawned
    }

    /// Starts the listeners. `spawn` makes a task of a factory and a handle
    /// to the service, and gives the handle of the task, or `None` where the
    /// scheduler rejects it. Every factory is used, once and in order. The
    /// runner holds the handles of all tasks, in that order; where a task
    /// was rejected, no runner is made.
    pub fn build<H, Sp: Fn(F, Arc<tokio::sync::Mutex<S>>) -> Option<H>>(self, spawn: Sp) -> (runner:
        Result<ServerRunner<H>, OrchestratorError>)
        requires
            forall|f: F, s: Arc<tokio::sync::Mutex<S>>| spawn.requires((f, s)),
        ensures
            match runner {
                Ok(r) => r.handles().len() == self.factories().len() && forall|i: int|
                    0 <= i < self.factories().len() ==> spawn.ensures(
                        (self.factories()[i], self.shared()),
                        Some(#[trigger] r.handles()[i]),
                    ),
                Err(e) => e == OrchestratorError::SpawnFailed && exists|i: int|
                    0 <= i < self.factories().len() && spawn.ensures(
                        (#[trigger] self.factories()[i], self.shared()),
                        None,
                    ),
            },
    {
        let spawned = self.spawn_all(&spawn);
        let ghost outcomes = spawned@;
        let runner = ServerRunner::started(spawned);
        proof {
            if runner.is_ok() {
                let handles = runner.unwrap().handles();
                assert forall|i: int| 0 <= i < self.factories().len() implies spawn.ensures(
                    (self.factories()[i], self.shared()),
                    Some(#[trigger] handles[i]),
                ) by {
                    assert(outcomes[i] == Some(handles[i]));
                }
            } else {
                let i = choose|i: int| 0 <= i < outcomes.len() && outcomes[i].is_none();
                assert(spawn.ensures((self.factories()[i], self.shared()), outcomes[i]));
                assert(outcomes[i] == None::<H>);
            }
        }
        runner
    }
}

} // verus!
