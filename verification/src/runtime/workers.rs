//! `slab::Slab` holding the pool's workers, as the verifier sees it.
//!
//! The slab is opaque. Two names say what the contracts need of it: which
//! worker sits under which key, and how many slots the slab has handed out.

use vstd::prelude::*;
use slab::Slab;
use crate::runtime::worker_thread::WorkerThread;
use crate::slab_spec::slot_bound;

verus! {

/// The workers that the slab holds, by key.
pub uninterp spec fn worker_entries(workers: Slab<WorkerThread>) -> Map<usize, WorkerThread>;

/// The number of slots, filled or vacant, that the slab has handed out.
pub uninterp spec fn worker_slots(workers: Slab<WorkerThread>) -> nat;

/// The map without any worker.
pub open spec fn no_workers() -> Map<usize, WorkerThread> {
    Map::empty()
}

/// Calls `Slab::with_capacity`: a slab without entries and without slots.
/// The capacity only reserves memory.
#[verifier::external_body]
pub(crate) fn workers_with_capacity(capacity: usize) -> (workers: Slab<WorkerThread>)
    requires
        capacity <= slot_bound(),
    ensures
        worker_entries(workers) == no_workers(),
        worker_slots(workers) == 0,
{
    Slab::with_capacity(capacity)
}

/// Calls `Slab::len`: the number of entries.
#[verifier::external_body]
pub(crate) fn workers_len(workers: &Slab<WorkerThread>) -> (len: usize)
    ensures
        len == worker_entries(*workers).len(),
{
    workers.len()
}

/// Calls `Slab::insert`. The value goes under a key that was vacant; while
/// no slot is vacant that key is the number of slots, and the slab grows by
/// one slot.
#[verifier::external_body]
pub(crate) fn workers_insert(workers: &mut Slab<WorkerThread>, worker: WorkerThread) -> (key: usize)
    requires
        worker_slots(*old(workers)) < slot_bound(),
    ensures
        !worker_entries(*old(workers)).contains_key(key),
        key <= worker_slots(*old(workers)),
        worker_entries(*old(workers)).len() == worker_slots(*old(workers)) ==> key
            == worker_slots(*old(workers)),
        worker_entries(*final(workers)) == worker_entries(*old(workers)).insert(key, worker),
        worker_slots(*final(workers)) == if key == worker_slots(*old(workers)) {
            worker_slots(*old(workers)) + 1
        } else {
            worker_slots(*old(workers))
        },
{
    workers.insert(worker)
}

/// Calls `Slab::get`: the entry under `key`, if there is one.
#[verifier::external_body]
pub(crate) fn workers_get(workers: &Slab<WorkerThread>, key: usize) -> (found: Option<&WorkerThread>)
    ensures
        found == if worker_entries(*workers).contains_key(key) {
            Some(&worker_entries(*workers)[key])
        } else {
            None
        },
{
    workers.get(key)
}

/// Calls `Slab::get_mut`: the entry under `key`, if there is one, to be
/// changed in place. No other entry and no slot is touched.
#[verifier::external_body]
pub(crate) fn workers_get_mut(workers: &mut Slab<WorkerThread>, key: usize) -> (found: Option<
    &mut WorkerThread,
>)
    ensures
        match found {
            Some(worker) => worker_entries(*old(workers)).contains_key(key) && *worker
                == worker_entries(*old(workers))[key] && worker_entries(*final(workers))
                == worker_entries(*old(workers)).insert(key, *final(worker)),
            None => !worker_entries(*old(workers)).contains_key(key) && worker_entries(
                *final(workers),
            ) == worker_entries(*old(workers)),
        },
        worker_slots(*final(workers)) == worker_slots(*old(workers)),
{
    workers.get_mut(key)
}

} // verus!
