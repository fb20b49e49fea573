//! A SOCKS server, version 5, as verified state machines.
//!
//! The library decides and never does I/O: a connection is told what happened and says what to do
//! next. [`server`] holds the connections of a server's clients, [`conn`] the opening of a
//! connection as an operation of its own, [`proxy`] the relay of one direction, [`proto`] the
//! messages, and [`connector`] where a request leads. [`poll`] says how a connection and whoever
//! runs it take turns, [`buffer`] what is taken for granted of the byte buffers, and [`laws`] what
//! all of it promises.
pub mod buffer;
pub mod conn;
pub mod connector;
pub mod error;
pub mod laws;
pub mod poll;
pub mod proto;
pub mod proxy;
pub mod server;

pub use buffer::to_read_buf;
pub use connector::LocalConnector;
