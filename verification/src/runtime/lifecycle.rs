//! The lifecycle of a task.
//!
//! A task is runnable while a worker may poll it, polling while a worker
//! runs it, pending while it waits to be woken, and ready once its
//! computation has finished. Ready is final.
//!
//! Every wake-up puts the task in a queue once, whatever state the task is
//! in. A worker that takes the task from a queue is let to poll it only
//! where the task is runnable, so an entry too many is taken out and
//! nothing comes of it. A wake-up that arrives while the task is being
//! polled is remembered as well, and the task goes back to the queue when
//! that poll ends without a result: the entry that the wake-up made may have
//! been taken out in the meantime.

use vstd::prelude::*;

verus! {

/// The state of a task.
#[derive(Clone, Copy, Debug, PartialEq, Eq, Structural)]
pub enum TaskState {
    /// Waiting for a worker: the next one that takes it from a queue polls
    /// it.
    Runnable,
    /// Being polled by a worker.
    Polling,
    /// Waiting to be woken.
    Pending,
    /// Finished, or dropped.
    Ready,
}

/// What the end of a poll means for the task.
#[derive(Clone, Copy, Debug, PartialEq, Eq, Structural)]
pub enum Verdict {
    /// The task was not being polled: nothing changed.
    Ignored,
    /// The task waits to be woken.
    Parked,
    /// The task was woken while it was polled: it goes back to the queue.
    Requeue,
    /// The task has finished.
    Completed,
}

/// Something that happens to a task.
#[derive(Clone, Copy, Debug, PartialEq, Eq, Structural)]
pub enum TaskOp {
    /// A worker took the task from a queue and asks to poll it.
    Claim,
    /// A poll ended, with or without a result.
    Settle { ready: bool },
    /// The task's waker was invoked.
    Wake,
    /// The task was dropped.
    Cancel,
}

/// What an operation asks of the executor.
#[derive(Clone, Copy, Debug, PartialEq, Eq, Structural)]
pub struct Effect {
    /// The worker may poll the task.
    pub poll: bool,
    /// The task is to be put in a queue, once.
    pub enqueue: bool,
}

/// Where a task stands: its state, and whether it was woken during the poll
/// that is under way.
#[derive(Clone, Copy, Debug, PartialEq, Eq, Structural)]
pub struct Lifecycle {
    pub state: TaskState,
    pub notified: bool,
}

impl Lifecycle {
    /// A wake-up is only ever remembered during a poll.
    pub open spec fn wf(&self) -> bool {
        self.notified ==> self.state == TaskState::Polling
    }

    /// Where a task starts: in a queue.
    pub open spec fn start() -> Lifecycle {
        Lifecycle { state: TaskState::Runnable, notified: false }
    }

    /// Whether the task waits for a worker.
    pub open spec fn runnable(&self) -> bool {
        self.state == TaskState::Runnable
    }

    /// Whether the task has finished or was dropped.
    pub open spec fn ready(&self) -> bool {
        self.state == TaskState::Ready
    }

    /// Whether a worker that asks to poll the task may do so.
    pub open spec fn grants(&self) -> bool {
        self.state == TaskState::Runnable
    }

    /// The task after a worker asked to poll it.
    pub open spec fn claimed(&self) -> Lifecycle {
        if self.grants() {
            Lifecycle { state: TaskState::Polling, notified: false }
        } else {
            *self
        }
    }

    /// What the end of a poll means for the task.
    pub open spec fn verdict(&self, ready: bool) -> Verdict {
        if self.state != TaskState::Polling {
            Verdict::Ignored
        } else if ready {
            Verdict::Completed
        } else if self.notified {
            Verdict::Requeue
        } else {
            Verdict::Parked
        }
    }

    /// The task after a poll ended.
    pub open spec fn settled(&self, ready: bool) -> Lifecycle {
        match self.verdict(ready) {
            Verdict::Ignored => *self,
            Verdict::Completed => Lifecycle { state: TaskState::Ready, notified: false },
            Verdict::Requeue => Lifecycle { state: TaskState::Runnable, notified: false },
            Verdict::Parked => Lifecycle { state: TaskState::Pending, notified: false },
        }
    }

    /// The task after its waker was invoked.
    pub open spec fn woken(&self) -> Lifecycle {
        match self.state {
            TaskState::Pending => Lifecycle { state: TaskState::Runnable, notified: false },
            TaskState::Polling => Lifecycle { state: TaskState::Polling, notified: true },
            _ => *self,
        }
    }

    /// The task after it was dropped.
    pub open spec fn cancelled(&self) -> Lifecycle {
        Lifecycle { state: TaskState::Ready, notified: false }
    }

    /// The task after an operation.
    pub open spec fn step(&self, op: TaskOp) -> Lifecycle {
        match op {
            TaskOp::Claim => self.claimed(),
            TaskOp::Settle { ready } => self.settled(ready),
            TaskOp::Wake => self.woken(),
            TaskOp::Cancel => self.cancelled(),
        }
    }

    /// What an operation asks of the executor.
    pub open spec fn effect(&self, op: TaskOp) -> Effect {
        match op {
            TaskOp::Claim => Effect { poll: self.grants(), enqueue: false },
            TaskOp::Settle { ready } => Effect {
                poll: false,
                enqueue: self.verdict(ready) == Verdict::Requeue,
            },
            TaskOp::Wake => Effect { poll: false, enqueue: true },
            TaskOp::Cancel => Effect { poll: false, enqueue: false },
        }
    }

    /// The task after a run of operations.
    pub open spec fn run(&self, ops: Seq<TaskOp>) -> Lifecycle
        decreases ops.len(),
    {
        if ops.len() == 0 {
            *self
        } else {
            self.run(ops.drop_last()).step(ops.last())
        }
    }

    /// Where a task starts: in a queue.
    pub fn new() -> (life: Lifecycle)
        ensures
            life == Lifecycle::start(),
            life.wf(),
    {
        Lifecycle { state: TaskState::Runnable, notified: false }
    }

    /// A worker asks to poll the task. It may where the task is runnable,
    /// and the task is then being polled; any other task stays as it is.
    pub fn claim(&mut self) -> (granted: bool)
        ensures
            granted == old(self).grants(),
            *final(self) == old(self).claimed(),
            old(self).wf() ==> final(self).wf(),
    {
        match self.state {
            TaskState::Runnable => {
                self.state = TaskState::Polling;
                self.notified = false;
                true
            },
            _ => false,
        }
    }

    /// A poll ended, with a result where `ready` holds.
    pub fn settle(&mut self, ready: bool) -> (verdict: Verdict)
        ensures
            verdict == old(self).verdict(ready),
            *final(self) == old(self).settled(ready),
            old(self).wf() ==> final(self).wf(),
    {
        match self.state {
            TaskState::Polling => {
                let woken = self.notified;
                self.notified = false;
                if ready {
                    self.state = TaskState::Ready;
                    Verdict::Completed
                } else if woken {
                    self.state = TaskState::Runnable;
                    Verdict::Requeue
                } else {
                    self.state = TaskState::Pending;
                    Verdict::Parked
                }
            },
            _ => Verdict::Ignored,
        }
    }

    /// The task's waker was invoked. The answer says that the task is to be
    /// put in a queue, as it is on every wake-up. A pending task becomes
    /// runnable. A task that is being polled remembers the wake-up. A task
    /// that is runnable or ready stays as it is.
    pub fn wake(&mut self) -> (enqueue: bool)
        ensures
            enqueue,
            *final(self) == old(self).woken(),
            old(self).wf() ==> final(self).wf(),
    {
        match self.state {
            TaskState::Pending => {
                self.state = TaskState::Runnable;
                self.notified = false;
            },
            TaskState::Polling => {
                self.notified = true;
            },
            _ => {},
        }
        true
    }

    /// The task was dropped: it is ready from now on.
    pub fn cancel(&mut self)
        ensures
            *final(self) == old(self).cancelled(),
            final(self).wf(),
    {
        self.state = TaskState::Ready;
        self.notified = false;
    }

    /// Whether the task has finished or was dropped.
    pub fn is_ready(&self) -> (ready: bool)
        ensures
            ready == self.ready(),
    {
        match self.state {
            TaskState::Ready => true,
            _ => false,
        }
    }

    /// Applies an operation and says what it asks of the executor.
    pub fn apply(&mut self, op: TaskOp) -> (effect: Effect)
        ensures
            effect == old(self).effect(op),
            *final(self) == old(self).step(op),
            old(self).wf() ==> final(self).wf(),
    {
        match op {
            TaskOp::Claim => {
                let poll = self.claim();
                Effect { poll, enqueue: false }
            },
            TaskOp::Settle { ready } => {
                let verdict = self.settle(ready);
                Effect { poll: false, enqueue: verdict == Verdict::Requeue }
            },
            TaskOp::Wake => {
                let enqueue = self.wake();
                Effect { poll: false, enqueue }
            },
            TaskOp::Cancel => {
                self.cancel();
                Effect { poll: false, enqueue: false }
            },
        }
    }
}

/// Every operation keeps the lifecycle's invariant.
pub proof fn lemma_step_keeps_wf(life: Lifecycle, op: TaskOp)
    requires
        life.wf(),
    ensures
        life.step(op).wf(),
{
}

/// Ready is final: whatever happens to a task that is ready, it stays as
/// it is, and no worker is let to poll it. A waker that outlives its task
/// does no harm: the queue entry that it makes is taken out and nothing
/// comes of it.
pub proof fn lemma_ready_is_final(life: Lifecycle, op: TaskOp)
    requires
        life.wf(),
        life.ready(),
    ensures
        life.step(op) == life,
        !life.effect(op).poll,
{
}

/// Ready stays ready over any run of operations.
pub proof fn lemma_ready_stays(life: Lifecycle, ops: Seq<TaskOp>)
    requires
        life.wf(),
        life.ready(),
    ensures
        life.run(ops) == life,
    decreases ops.len(),
{
    if ops.len() > 0 {
        lemma_ready_stays(life, ops.drop_last());
        lemma_ready_is_final(life.run(ops.drop_last()), ops.last());
        assert(life.run(ops.drop_last()) == life);
    }
}

/// Every wake-up puts the task in a queue, once: whatever state the task
/// is in, the wake-up asks for one entry, lets no worker poll, and leaves a
/// task that is ready or runnable as it is.
pub proof fn lemma_wake_enqueues_once(life: Lifecycle)
    ensures
        life.effect(TaskOp::Wake) == (Effect { poll: false, enqueue: true }),
        life.ready() == life.woken().ready(),
        life.runnable() ==> life.woken() == life,
{
}

/// The queue and the lifecycle move together. A task becomes runnable only
/// by an operation that puts it in a queue, so a runnable task has an entry
/// by which a worker finds it. A worker is let to poll only a runnable
/// task, which is being polled from then on. A worker that takes out an
/// entry too many is refused, and the task stays as it is.
pub proof fn lemma_queue_discipline(life: Lifecycle, op: TaskOp)
    requires
        life.wf(),
    ensures
        !life.runnable() && life.step(op).runnable() ==> life.effect(op).enqueue,
        life.effect(op).enqueue ==> op == TaskOp::Wake || (op == (TaskOp::Settle { ready: false })
            && life.verdict(false) == Verdict::Requeue),
        life.effect(op).poll ==> op == TaskOp::Claim && life.runnable() && life.step(op).state
            == TaskState::Polling,
        op == TaskOp::Claim && !life.effect(op).poll ==> life.step(op) == life,
{
}

/// No two workers poll one task at a time: while a task is being polled,
/// no worker that asks for it is let to poll it, until the poll has ended.
pub proof fn lemma_single_poller(life: Lifecycle, ops: Seq<TaskOp>, i: int)
    requires
        life.state == TaskState::Polling,
        forall|j: int| 0 <= j < ops.len() ==> !(#[trigger] ops[j] is Settle),
        0 <= i < ops.len(),
    ensures
        !life.run(ops.take(i)).effect(ops[i]).poll,
        life.run(ops.take(i)).state == TaskState::Polling || life.run(ops.take(i)).state
            == TaskState::Ready,
    decreases i,
{
    if i > 0 {
        lemma_single_poller(life, ops, i - 1);
        assert(ops.take(i).drop_last() =~= ops.take(i - 1));
        assert(ops.take(i).last() == ops[i - 1]);
    } else {
        assert(ops.take(0).len() == 0);
    }
}

/// A poll is granted only to a task that is not being polled, and the task
/// is being polled from then on.
pub proof fn lemma_claim_starts_poll(life: Lifecycle)
    requires
        life.grants(),
    ensures
        life.claimed().state == TaskState::Polling,
        !life.claimed().grants(),
{
}

/// A wake-up is never lost: a task that is woken while it waits becomes
/// runnable, and a task that is woken while it is polled becomes runnable
/// when that poll ends without a result and is put in a queue again.
pub proof fn lemma_wake_is_kept(life: Lifecycle)
    requires
        life.wf(),
        life.state == TaskState::Pending || life.state == TaskState::Polling,
    ensures
        life.state == TaskState::Pending ==> life.woken().runnable(),
        life.state == TaskState::Polling ==> life.woken().verdict(false) == Verdict::Requeue
            && life.woken().settled(false).runnable(),
{
}

} // verus!
