//! A fixed-capacity ring queue with a two-phase claim/publish protocol.
//!
//! - [`ring`] holds the abstract state of a queue and its transitions.
//! - [`queue`] holds the executable queue, whose view is that state.
//! - [`laws`] proves what holds of whole runs: first in, first out; full after
//!   exactly as many writes as there are slots; cursors that wrap.

pub mod laws;
pub mod queue;
pub mod ring;

pub use queue::LF_Queue;
pub use queue::QueueError;
pub use ring::RingState;
