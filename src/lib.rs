//! Per-frame streaming of draped-line primitives into a fixed-capacity GPU
//! uniform buffer: the packed byte layout, the buffer lifecycle decisions and
//! the deferred copy queue.

pub mod copy_queue;
pub mod laws;
pub mod layout;
pub mod node;
