//! A per-user registry of suspended shell jobs, grouped by the directory that
//! started them, together with the line protocol that a daemon and its
//! clients speak over a local socket.
//!
//! The daemon keeps a [`registry::Registry`] behind one lock. For each
//! connection it reads a line, lets [`server::handle_line`] serve it, and
//! sends the line of the answer. A client decides with [`client::after_connect`]
//! whether to start a daemon, sends [`client::request_line`], and reads the
//! answer with [`client::read_answer`]. Sockets, processes, threads and the
//! clock belong to the program around the library.
//!
//! The library is verified with Verus. Contracts speak of the mathematical
//! value of each piece of data, its view. What the library takes from other
//! crates stands behind a few functions marked `external_body`, whose
//! contracts are believed and not proved: the process table in
//! [`liveness`], JSON text in [`json`], and base64 in [`paths`].

pub mod cli;
pub mod client;
pub mod codec;
pub mod json;
pub mod liveness;
pub mod paths;
pub mod registry;
pub mod server;
pub mod sessions;
pub mod text;
pub mod utils;

pub use crate::client::ClientError;
pub use crate::server::JobCtlError;
