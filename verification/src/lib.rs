//! Event-driven transport core for a single non-blocking duplex byte stream.
//!
//! The crate drives one connection through readiness notifications coming
//! from an external reactor.  It keeps an inbound and an outbound byte
//! buffer, retries transient failures, detects clean close, and hands
//! buffered data to a pluggable protocol state machine.

pub mod buffer;
pub mod event;
pub mod flow;
pub mod machine;
pub mod protocol;
pub mod socket;
pub mod stream;
pub mod transport;

pub use event::EventSet;
pub use machine::Async;
pub use protocol::Protocol;
pub use socket::{ReadOutcome, Socket, WriteOutcome};
pub use stream::{Registrator, Stream, Timeout};
pub use transport::Transport;
