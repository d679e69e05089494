//! The runner: the listener tasks that were spawned, until shutdown.

use vstd::prelude::*;
use crate::error::OrchestratorError;

verus! {

/// Holds the handles of the spawned listener tasks, in the order in which
/// their protocols were added.
#[derive(Debug)]
pub struct ServerRunner<H> {
    handles: Vec<H>,
}

/// The handles among `spawned`, where the scheduler took every task.
pub open spec fn all_spawned<H>(spawned: Seq<Option<H>>) -> bool {
    forall|i: int| 0 <= i < spawned.len() ==> (#[trigger] spawned[i]).is_some()
}

impl<H> ServerRunner<H> {
    /// The handles of the tasks that run.
    pub closed spec fn handles(&self) -> Seq<H> {
        self.handles@
    }

    /// The runner of the tasks that were spawned. `spawned` holds, for each
    /// listener in order, the handle that the scheduler gave, or `None`
    /// where it rejected the task: one rejection and no runner is made.
    pub fn started(spawned: Vec<Option<H>>) -> (runner: Result<ServerRunner<H>, OrchestratorError>)
        ensures
            match runner {
                Ok(r) => all_spawned(spawned@) && r.handles().len() == spawned@.len()
                    && forall|i: int|
                    0 <= i < spawned@.len() ==> spawned@[i] == Some(#[trigger] r.handles()[i]),
                Err(e) => !all_spawned(spawned@) && e == OrchestratorError::SpawnFailed,
            },
    {
        let ghost given = spawned@;
        let mut handles: Vec<H> = Vec::new();
        for outcome in it: spawned
            invariant
                it.seq() == given,
                handles.len() == it.index(),
                forall|k: int| 0 <= k < it.index() ==> given[k] == Some(#[trigger] handles[k]),
        {
            match outcome {
                Some(handle) => {
                    handles.push(handle);
                },
                None => {
                    assert(given[it.index() as int].is_none());
                    return Err(OrchestratorError::SpawnFailed);
                },
            }
        }
        proof {
            assert forall|k: int| 0 <= k < given.len() implies (#[trigger] given[k]).is_some() by {
                assert(given[k] == Some(handles[k]));
            }
        }
        Ok(ServerRunner { handles })
    }

    /// The handles of the tasks that run, in the order in which their
    /// protocols were added.
    pub fn tasks(&self) -> (tasks: &Vec<H>)
        ensures
            tasks@ == self.handles(),
    {
        &self.handles
    }

    /// The number of tasks that run.
    pub fn len(&self) -> (n: usize)
        ensures
            n == self.handles().len(),
    {
        self.handles.len()
    }

    /// Ends the run. `signal` is how the wait for the shutdown signal
    /// ended. On the signal every task is handed to `abort`, once and in
    /// order, with no wait for requests in flight. Where the wait itself
    /// failed, its error is handed on and no task is aborted.
    pub fn run<A: Fn(H)>(self, signal: Result<(), String>, abort: A) -> (ended: Result<(), String>)
        requires
            forall|h: H| abort.requires((h,)),
        ensures
            match signal {
                Ok(_) => ended.is_ok() && forall|i: int|
                    0 <= i < self.handles().len() ==> abort.ensures(
                        (#[trigger] self.handles()[i],),
                        (),
                    ),
                Err(e) => ended == Err::<(), String>(e),
            },
    {
        match signal {
            Ok(_) => {
                let ghost handles = self.handles@;
                for handle in it: self.handles
                    invariant
                        it.seq() == handles,
                        forall|h: H| abort.requires((h,)),
                        forall|i: int|
                            0 <= i < it.index() ==> abort.ensures((#[trigger] handles[i],), ()),
                {
                    abort(handle);
                }
                Ok(())
            },
            Err(e) => Err(e),
        }
    }
}

} // verus!
