//! A minimal client for a pixel-streaming window protocol over one TCP
//! connection: a handshake that gives the client its id, frames that go out
//! and events that come in.
//!
//! The crate does no I/O and allocates nothing. The caller makes the
//! transport calls (create, connect, read, write, set flags, close) and
//! hands what each call returned, a count or bytes or a positive error
//! number, to the function that stands for the call here. Where calls and
//! decisions take turns, the function is one turn: it takes the last
//! outcome and says what to do next.
//!
//! The layers, from the bottom:
//! - [`utils::CyclicBuf`]: a ring of fixed capacity;
//! - [`socket::Socket`]: the connection, and the meaning of the transport's
//!   error numbers;
//! - [`bufsocket::BufSocket`]: a connection with a ring of received bytes,
//!   filled chunk by chunk and emptied value by value;
//! - [`wire::Wire`]: the byte form of the integers, most significant byte
//!   first;
//! - [`event`] and [`winclient`]: the packets, and the session
//!   [`winclient::Client`].
//!
//! Every function is verified against its contract; none of them panics.

pub mod bufsocket;
pub mod event;
pub mod socket;
pub mod sys;
pub mod time;
pub mod utils;
pub mod winclient;
pub mod wire;
pub mod write;

pub use sys::io_sys::{STDERR, STDOUT};
