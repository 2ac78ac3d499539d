//! The I/O side: readiness events, source records and the reactor's table.

pub mod waker;
pub mod event;
pub mod iosource;
pub mod sources;
pub mod error;
pub mod reactor;
pub mod tcp_stream;
pub mod async_read;
pub mod async_write;
pub mod dispatch_laws;
pub mod stream_laws;
