//! The runtime: its pool of workers, the numbers it gives to tasks, and the
//! phases it goes through from being built to being shut down.

use vstd::prelude::*;
use std::sync::mpsc::Sender;
use crate::runtime::channel::{Queued, Refused};
use crate::runtime::task_handle::TaskHandle;
use crate::runtime::thread_pool::{Dispatch, PoolError, ThreadPool, MAX_WORKERS};
use crate::runtime::worker_thread::thread_name;

verus! {

/// Where the runtime stands.
#[derive(Clone, Copy, Debug, PartialEq, Eq, Structural)]
pub enum Phase {
    /// Built, and not yet given its first task.
    Built,
    /// Running its first task and whatever was spawned since.
    Running,
    /// Shut down: it takes no more tasks.
    Stopped,
}

/// Why the runtime refused a request.
#[derive(Debug)]
pub enum RuntimeError {
    /// A runtime needs at least one worker.
    NoWorkers,
    /// More workers were asked for than the machine runs threads at once,
    /// or than a pool can hold.
    TooManyWorkers,
    /// The runtime was given its first task before.
    AlreadyStarted,
    /// The runtime has been shut down.
    Stopped,
    /// The runtime has given out every task number it has.
    TasksExhausted,
    /// The pool has no worker at the position that was named.
    UnknownWorker,
    /// A worker refused a task, was restarted, and refused it again: the
    /// task came back in `refused`.
    PoolDispatchFailed { refused: Refused },
}

/// A task that the runtime has taken on.
#[derive(Debug)]
pub struct Spawned {
    /// The handle by which the task's result is awaited. It names the task's
    /// number.
    pub handle: TaskHandle,
    /// What became of the task in the pool.
    pub dispatch: Dispatch,
}

/// Async runtime.
pub struct Runtime {
    phase: Phase,
    pool: ThreadPool,
    next_task: usize,
}

impl Runtime {
    /// Where the runtime stands.
    pub closed spec fn phase(&self) -> Phase {
        self.phase
    }

    /// The pool of workers.
    pub closed spec fn pool(&self) -> ThreadPool {
        self.pool
    }

    /// The number that the next task gets.
    pub closed spec fn next_task(&self) -> usize {
        self.next_task
    }

    /// The runtime's invariant: its pool is in order.
    pub open spec fn wf(&self) -> bool {
        self.pool().wf()
    }

    /// What building a runtime with `workers` workers answers on a machine
    /// that runs `parallelism` threads at once.
    pub open spec fn sizing(workers: nat, parallelism: usize) -> Result<(), RuntimeError> {
        if workers == 0 {
            Err(RuntimeError::NoWorkers)
        } else if workers > parallelism || workers > MAX_WORKERS {
            Err(RuntimeError::TooManyWorkers)
        } else {
            Ok(())
        }
    }

    /// What spawning a task answers before the pool is asked: a runtime that
    /// was shut down refuses, and so does one that has run out of numbers.
    pub open spec fn admission(&self) -> Result<usize, RuntimeError> {
        if self.phase() == Phase::Stopped {
            Err(RuntimeError::Stopped)
        } else if self.next_task() == usize::MAX {
            Err(RuntimeError::TasksExhausted)
        } else {
            Ok(self.next_task())
        }
    }

    /// Builds a runtime with one worker for each queue. It is refused where
    /// there is no queue, and where there are more queues than the machine
    /// runs threads at once or than a pool can hold.
    pub fn build(senders: Vec<Sender<usize>>, parallelism: usize) -> (built: Result<
        Runtime,
        RuntimeError,
    >)
        ensures
            built.is_ok() == Runtime::sizing(senders@.len(), parallelism).is_ok(),
            built matches Err(error) ==> Runtime::sizing(senders@.len(), parallelism) == Err::<
                (),
                RuntimeError,
            >(error),
            built matches Ok(runtime) ==> {
                &&& runtime.wf()
                &&& runtime.phase() == Phase::Built
                &&& runtime.next_task() == 0
                &&& runtime.pool()@.len() == senders@.len()
                &&& forall|i: int|
                    0 <= i < senders@.len() ==> {
                        let worker = #[trigger] runtime.pool()@[i];
                        &&& worker.id() == i
                        &&& worker.amount_sent() == 0
                        &&& worker.queue() == senders@[i]
                        &&& worker.given_name() == Some(thread_name(i as usize))
                    }
            },
    {
        let workers = senders.len();
        if workers == 0 {
            return Err(RuntimeError::NoWorkers);
        }
        if workers > parallelism || workers > MAX_WORKERS {
            return Err(RuntimeError::TooManyWorkers);
        }
        let pool = ThreadPool::new(senders, parallelism);
        Ok(Runtime { phase: Phase::Built, pool, next_task: 0 })
    }

    /// Where the runtime stands.
    pub fn get_phase(&self) -> (phase: Phase)
        ensures
            phase == self.phase(),
    {
        self.phase
    }

    /// The pool of workers.
    pub fn get_pool(&self) -> (pool: &ThreadPool)
        ensures
            *pool == self.pool(),
    {
        &self.pool
    }

    /// The number of workers.
    pub fn workers(&self) -> (n: usize)
        requires
            self.wf(),
        ensures
            n == self.pool()@.len(),
            0 < n <= MAX_WORKERS,
    {
        self.pool.len()
    }

    /// Starts the runtime: it takes the number of its first task, which the
    /// caller runs on its own thread. A runtime is started once.
    pub fn init(&mut self) -> (first: Result<TaskHandle, RuntimeError>)
        requires
            old(self).wf(),
        ensures
            final(self).wf(),
            final(self).pool() == old(self).pool(),
            match first {
                Ok(handle) => {
                    &&& old(self).phase() == Phase::Built
                    &&& old(self).next_task() < usize::MAX
                    &&& handle.task_id() == old(self).next_task()
                    &&& final(self).next_task() == old(self).next_task() + 1
                    &&& final(self).phase() == Phase::Running
                },
                Err(error) => {
                    &&& final(self).phase() == old(self).phase()
                    &&& final(self).next_task() == old(self).next_task()
                    &&& error == match old(self).phase() {
                        Phase::Built => RuntimeError::TasksExhausted,
                        Phase::Running => RuntimeError::AlreadyStarted,
                        Phase::Stopped => RuntimeError::Stopped,
                    }
                    &&& old(self).phase() == Phase::Built ==> old(self).next_task() == usize::MAX
                },
            },
    {
        match self.phase {
            Phase::Built => {
                if self.next_task == usize::MAX {
                    return Err(RuntimeError::TasksExhausted);
                }
                let handle = TaskHandle::new(self.next_task);
                self.next_task = self.next_task + 1;
                self.phase = Phase::Running;
                Ok(handle)
            },
            Phase::Running => Err(RuntimeError::AlreadyStarted),
            Phase::Stopped => Err(RuntimeError::Stopped),
        }
    }

    /// Shuts the runtime down: from now on it takes no tasks.
    pub fn shutdown(&mut self)
        ensures
            final(self).phase() == Phase::Stopped,
            final(self).pool() == old(self).pool(),
            final(self).next_task() == old(self).next_task(),
    {
        self.phase = Phase::Stopped;
    }

    /// Takes on a new task: gives it the next number, makes its handle and
    /// hands it to the pool. A runtime that was shut down refuses, and
    /// nothing changes. Where the pool's worker is gone the task comes back
    /// in the answer, to be offered again with `recover` once the worker has
    /// a new thread.
    pub fn spawn(&mut self) -> (spawned: Result<Spawned, RuntimeError>)
        requires
            old(self).wf(),
        ensures
            final(self).wf(),
            final(self).phase() == old(self).phase(),
            match spawned {
                Ok(task) => {
                    &&& old(self).admission() == Ok::<usize, RuntimeError>(task.handle.task_id())
                    &&& final(self).next_task() == old(self).next_task() + 1
                    &&& final(self).pool().dispatched(
                        old(self).pool(),
                        task.handle.task_id(),
                        task.dispatch,
                    )
                },
                Err(error) => {
                    &&& old(self).admission() == Err::<usize, RuntimeError>(error)
                    &&& final(self).next_task() == old(self).next_task()
                    &&& final(self).pool() == old(self).pool()
                },
            },
    {
        match self.phase {
            Phase::Stopped => {
                return Err(RuntimeError::Stopped);
            },
            _ => {},
        }
        if self.next_task == usize::MAX {
            return Err(RuntimeError::TasksExhausted);
        }
        let id = self.next_task;
        self.next_task = id + 1;
        let dispatch = self.pool.distribute_task(id);
        Ok(Spawned { handle: TaskHandle::new(id), dispatch })
    }

    /// What the pool answered, read back from the runtime's answer for the
    /// worker at `worker`.
    pub open spec fn pool_outcome(done: Result<Queued, RuntimeError>, worker: usize) -> Result<
        Queued,
        PoolError,
    > {
        match done {
            Ok(queued) => Ok(queued),
            Err(RuntimeError::PoolDispatchFailed { refused }) => Err(
                PoolError::DispatchFailed { refused },
            ),
            Err(_) => Err(PoolError::UnknownWorker { worker }),
        }
    }

    /// Offers a task again, once, to a worker that has a new thread, fed
    /// through `sender`. The worker's count starts again. A second refusal
    /// is final and is reported. A position beyond the pool is refused. The
    /// answer holds the record of the offer.
    pub fn recover(&mut self, worker: usize, sender: Sender<usize>, task: usize) -> (done: Result<
        Queued,
        RuntimeError,
    >)
        requires
            old(self).wf(),
        ensures
            final(self).wf(),
            final(self).phase() == old(self).phase(),
            final(self).next_task() == old(self).next_task(),
            worker >= old(self).pool()@.len() ==> done matches Err(RuntimeError::UnknownWorker),
            worker < old(self).pool()@.len() ==> done is Ok || done matches Err(
                RuntimeError::PoolDispatchFailed { .. },
            ),
            final(self).pool().recovered(
                old(self).pool(),
                worker,
                sender,
                task,
                Runtime::pool_outcome(done, worker),
            ),
    {
        match self.pool.recover(worker, sender, task) {
            Ok(queued) => Ok(queued),
            Err(PoolError::UnknownWorker { .. }) => Err(RuntimeError::UnknownWorker),
            Err(PoolError::DispatchFailed { refused }) => Err(
                RuntimeError::PoolDispatchFailed { refused },
            ),
        }
    }
}

/// A runtime that was shut down takes no tasks, whatever else holds of it.
pub proof fn lemma_no_spawn_after_shutdown(runtime: Runtime)
    requires
        runtime.phase() == Phase::Stopped,
    ensures
        runtime.admission() == Err::<usize, RuntimeError>(RuntimeError::Stopped),
{
}

/// A runtime that has not been shut down takes a task for as long as it has
/// a number left to give: the state of its workers does not keep it from
/// taking one, and a worker that was restarted does not either.
pub proof fn lemma_spawn_is_admitted(runtime: Runtime)
    requires
        runtime.phase() != Phase::Stopped,
        runtime.next_task() < usize::MAX,
    ensures
        runtime.admission() == Ok::<usize, RuntimeError>(runtime.next_task()),
{
}

/// A runtime is built exactly for a number of workers from one up to what
/// the machine runs at once and a pool can hold: none is refused, and so is
/// one more than the machine has.
pub proof fn lemma_sizing(workers: nat, parallelism: usize)
    ensures
        Runtime::sizing(0, parallelism) == Err::<(), RuntimeError>(RuntimeError::NoWorkers),
        workers > parallelism ==> Runtime::sizing(workers, parallelism).is_err(),
        Runtime::sizing(workers, parallelism).is_ok() <==> 0 < workers <= parallelism && workers
            <= MAX_WORKERS,
{
}

} // verus!
