//! Job queues.
pub mod in_memory;

pub use in_memory::InMemoryQueue;
