//! What holds between a task and the handle that awaits it.

use vstd::prelude::*;
use crate::runtime::lifecycle::{lemma_ready_stays, TaskOp, TaskState, Verdict};
use crate::runtime::task::Task;
use crate::runtime::task_handle::{HandlePoll, TaskHandle};

verus! {

/// A result reaches the handle. When the poll of a task ends with a result,
/// the task is ready and stays ready whatever happens to it afterwards, and
/// its handle, whenever it is polled next, yields that result.
pub proof fn lemma_completion_reaches_handle<T>(
    handle: TaskHandle,
    before: Task<T>,
    after: Task<T>,
    value: T,
    later: Seq<TaskOp>,
)
    requires
        before.life().state == TaskState::Polling,
        after.id() == handle.task_id(),
        after.life() == before.life().settled(true),
        after.output() == Some(value),
    ensures
        before.life().verdict(true) == Verdict::Completed,
        after.life().ready(),
        after.life().run(later).ready(),
        handle.yields(Some(after)) == HandlePoll::Ready(Some(value)),
{
    lemma_ready_stays(after.life(), later);
}

/// A dropped task unblocks its handle. Whatever a task was doing when it
/// was dropped, it is ready afterwards and stays so, and its handle yields
/// ready: with the result where the task had finished before, and without
/// one where it had not. A handle that finds no task at all yields ready
/// without a result as well.
pub proof fn lemma_drop_unblocks_handle<T>(
    handle: TaskHandle,
    before: Task<T>,
    after: Task<T>,
    later: Seq<TaskOp>,
)
    requires
        before.wf(),
        after.id() == handle.task_id(),
        after.life() == before.life().cancelled(),
        after.output() == before.output(),
    ensures
        after.life().ready(),
        after.life().run(later).ready(),
        handle.yields(Some(after)) == HandlePoll::Ready(before.output()),
        !before.life().ready() ==> handle.yields(Some(after)) == HandlePoll::<T>::Ready(None),
        handle.yields(None::<Task<T>>) == HandlePoll::<T>::Ready(None),
{
    lemma_ready_stays(after.life(), later);
}

/// A handle waits exactly while its task exists and is not ready.
pub proof fn lemma_handle_waits<T>(handle: TaskHandle, task: Task<T>)
    requires
        task.id() == handle.task_id(),
    ensures
        handle.yields(Some(task)) == HandlePoll::<T>::Pending <==> !task.life().ready(),
{
}

} // verus!
