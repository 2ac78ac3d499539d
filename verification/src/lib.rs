//! A small asynchronous runtime core: the source table of an I/O reactor,
//! the lifecycle of a task and the dispatch policy of a worker pool, with
//! every decision stated as a contract and proved.

pub mod slab_spec;
pub mod io;
pub mod runtime;
pub mod dummy_mutex;
pub mod delay_future;
