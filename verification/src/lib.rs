//! A single-connection request/response server core.
//!
//! The crate holds the decisions of the server: a severity-merged [`Status`],
//! the request/response pump, and the lifecycle state machine that leads from
//! binding a socket to a finished connection. It performs no I/O itself. Each
//! operation either takes the outcome of a piece of outside work as a plain
//! value, or names the next piece of outside work for a driver to perform.

pub mod active_server;
pub mod async_server;
pub mod async_server_error;
pub mod bound_connection_future;
pub mod connection_error;
pub mod connection_future;
pub mod errors;
pub mod listening_server;
pub mod poll;
pub mod shutdown;
pub mod start_server;
pub mod status;

pub use active_server::ActiveServer;
pub use async_server::AsyncServer;
pub use async_server_error::{AsyncServerError, OldErrorWrapper};
pub use bound_connection_future::{BindConnectionError, BoundConnectionFuture};
pub use connection_error::ConnectionError;
pub use connection_future::ConnectionFuture;
pub use errors::ErrorKind;
pub use listening_server::ListeningServer;
pub use poll::{Async, AsyncSink, Poll, StartSend, Step};
pub use start_server::StartServer;
pub use status::Status;
