//! A buffer-driven protocol session driver.
//!
//! The crate advances a record-oriented, cryptographically protected
//! transport session (such as TLS) by repeatedly querying an external
//! session engine for the next required action, performing the side
//! effect that action demands, and maintaining the caller-owned
//! incoming and outgoing byte buffers across iterations.

pub mod adapter;
pub mod aead;
pub mod buffer;
pub mod driver;
pub mod engine;
pub mod error;
pub mod provider;
pub mod retry;
pub mod script;
pub mod time;

pub use buffer::IncomingBuffer;
pub use buffer::OutgoingBuffer;
pub use driver::converse;
pub use driver::SessionOptions;
pub use driver::SessionOutcome;
pub use error::SessionError;
