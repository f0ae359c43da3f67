//! A connector that lets the `awc` HTTP client reach a server over a Unix
//! domain socket.
//!
//! The connector holds one filesystem path. For every connection the client
//! asks for, it dials that path, whatever host and port the request names, and
//! hands the opened stream back together with the request's URI.
//!
//! Opening the socket is asynchronous I/O and is left to the caller. The
//! library decides what is dialled ([`UdsConnector::prepare`]) and what the
//! client gets once the socket has answered ([`Dial::complete`]).

pub mod bindings;
pub mod connector;
pub mod laws;

pub use crate::connector::{Dial, UdsConnector};
