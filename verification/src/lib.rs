//! Core of a language server speaking a JSON-RPC style protocol: the
//! protocol's message model, the envelope codec, the byte-stream framing,
//! the handler dispatcher, and the handshake state machine.

pub mod codec;
pub mod dispatcher;
pub mod framing;
pub mod protocol;
pub mod server;
pub mod state;

pub use server::__start;
