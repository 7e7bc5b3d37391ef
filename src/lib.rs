//! CITP (Capture Interactive Theatre Protocol): a verified codec for its layered binary
//! messages, a framing reader for its TCP byte streams and the decisions of a peer session.
//!
//! - `wire`: little-endian primitives, counted lists and the codec traits. Every type has a
//!   model, the exact bytes written for it and a parser; readers and writers are proved
//!   against them, and each type proves that reading what was written gives it back.
//! - `text`: NUL-terminated and counted 16-bit text fields.
//! - `protocol`: the base header, layer headers and messages, with one module per layer.
//! - `dispatch`: decoding one whole message by its layer and message tags.
//! - `framing`: splitting a byte stream into whole messages, however it is cut.
//! - `session`: the session state machine, as a step function from events to actions.

pub mod wire;
pub mod text;
pub mod protocol;
pub mod dispatch;
pub mod framing;
pub mod session;
