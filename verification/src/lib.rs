//! Host side of a script-driven image editor: the typed request/reply
//! protocol between a scripting thread and the host, the per-tick command
//! dispatcher with its queue-head retry rule, the append-only image store
//! with its index clamping, the FIFO input-event queue, and the
//! repeat-last-command mechanism. Pixel math itself is delegated to the
//! `image` crate; window and channel plumbing live outside this library.

pub mod geometry;
pub mod host;
pub mod image_ops;
pub mod laws;
pub mod protocol;
pub mod store;
pub mod timer;
