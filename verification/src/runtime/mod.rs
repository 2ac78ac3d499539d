//! The executor side: tasks, their handles, worker threads and the pool.

pub mod mut_cell;
pub mod lifecycle;
pub mod task;
pub mod task_handle;
pub mod task_laws;
pub mod channel;
pub mod worker_thread;
pub mod workers;
pub mod thread_pool;
pub mod runtime;
