//! Dialogue storage: a contract for per-chat dialogue records, an in-memory
//! backend and a tracing decorator that forwards every call unchanged.

pub mod laws;
pub mod memory;
pub mod shard;
pub mod store;
pub mod trace;

pub use memory::{InMemStorage, StorageError};
pub use shard::shard_index;
pub use store::{run_script, Op, Storage};
pub use trace::{TraceEvent, TraceStorage};
