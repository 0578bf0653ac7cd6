//! The client side of a group chat: one session with a chat server, from the
//! first attempt to connect until the session is closed.
//!
//! The library does no I/O. A host hands the session what happened (the
//! transport is open, a text came in, the user submitted a line) and carries
//! out what the session hands back: open or close the transport, send a text,
//! tell the user interface what changed.
//!
//! - [`wire`] reads and writes frames, the messages of the protocol, as JSON
//!   text; [`message`] does the same for the chat line inside a frame.
//! - [`profile`] and [`store`] hold who is online and what has been said.
//! - [`session`] is the controller that ties them together, and [`screen`] is
//!   what it shows.
//! - [`laws`] states what holds of every session.
//! - [`json`] and [`bytes`] are the boundary to `serde_json` and to the UTF-8
//!   check of the standard library. What is stated there is trusted;
//!   everything else is proved.

pub mod bytes;
pub mod json;
pub mod laws;
pub mod message;
pub mod profile;
pub mod screen;
pub mod session;
pub mod store;
pub mod wire;
