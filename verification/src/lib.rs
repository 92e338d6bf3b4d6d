//! Heap-allocation-based multi-producer/multi-consumer FIFO channel.
//!
//! The core is an unbounded queue over a chain of individually allocated
//! nodes, driven by a head/tail pointer protocol; a cloneable sender/receiver
//! handle pair shares one queue, and an asynchronous adapter turns a failed
//! receive into a suspend/resume point for a cooperative task scheduler.

pub mod mpmc;
