//! The core of a single-threaded cooperative I/O runtime: the tables, queues
//! and rules of a task executor that sits on two kernel submission rings.
//!
//! The library holds the state and every decision; the caller owns the rings
//! and the clock, performs the kernel work between the steps and hands back
//! what the kernel said.

pub mod context;
pub mod executor;
pub mod op;
pub mod ready;
pub mod ring;
pub mod slab;
pub mod timers;
pub mod turn;
