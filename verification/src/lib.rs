//! Allocation and sharing substrate for a double-buffered mapping: two
//! cache-isolated slots, an exclusive owning handle that creates and tears
//! down the paired storage exactly once, and a freely copyable accessor
//! handle for concurrent readers.

pub mod index;
pub mod store;
