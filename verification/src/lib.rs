//! The connection-state core of a WebSocket context for a reactive UI tree.
//!
//! A [`DioxusWs`] follows the life of one connection: it keeps the flag that
//! says whether a send may go out, and the form of the one handler that takes
//! inbound frames. A [`Scope`] is what one UI subtree holds of it: the
//! providers register the context once per subtree, and the components below
//! look it up.
//!
//! Everything here is a function from plain values to plain values. The
//! caller owns the socket, the UI runtime and the logger; it performs what
//! these functions tell it to perform, and reports back what happened.

pub mod connection;
pub mod error;
pub mod laws;
pub mod message;
pub mod provider;
pub mod record;

pub use connection::{
    json_outcome, send_outcome, Command, DioxusWs, HandlerKind, Inbound, LifecycleEvent,
};
pub use error::{SendError, WebSocketError};
pub use message::Message;
pub use provider::{
    provide_context, use_ws_context, use_ws_context_provider, use_ws_context_provider_json,
    use_ws_context_provider_text, Registration, Scope,
};
pub use record::{Level, LogRecord};
