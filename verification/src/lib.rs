//! A small in-memory key-value store that is served over a line-oriented text
//! protocol: `GET key`, `SET key value` and `DEL key`, one command per line,
//! each answered with one line.
//!
//! - [`kv_store`] holds the store: the key-value pairs, and the lock that lets
//!   the connections share them.
//! - [`text`] splits a line into words, and makes the bytes of a line.
//! - [`command`] has the requests that a store carries out and the replies
//!   that it gives.
//! - [`server`] reads a command from a line, has the store carry it out, and
//!   decides what the listener and the handler of a connection do next.
//! - [`client`] decides what the interactive client does with its input.
//! - [`session`] states what clients can rely on when they talk to the
//!   server.
//! - [`exercise`] draws requests at random.
//! - [`error`] has the errors and their messages.
//!
//! The library neither opens sockets nor starts threads: a program does that,
//! and asks the library at each step what to do.

pub mod client;
pub mod command;
pub mod error;
pub mod exercise;
pub mod kv_store;
pub mod server;
pub mod session;
pub mod text;
