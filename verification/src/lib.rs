//! Batched streaming inserts into a column store over HTTP.
//!
//! The crate holds the decisions of the insert pipeline: how row bytes are
//! packed into chunks, when a session is rotated, and how a session ends.
//! Sockets, tasks and clocks stay with the caller, who hands in what they
//! produced and carries out what the pipeline decides.

use vstd::prelude::*;

pub mod buffer;
pub mod client;
pub mod db;
pub mod insert;
pub mod inserter;
pub mod options;
pub mod reader;
pub mod request;
pub mod response;
pub mod target;
pub mod time;

pub use db::{Database, Inserter, Type};
pub use options::ClientOptions;
pub use reader::Reader;

verus! {

/// What can go wrong between the caller and the server.
#[derive(Debug, Clone, PartialEq, Eq)]
pub enum Error {
    /// An input or output operation failed; the text says how.
    IO(String),
    /// The transport failed before a response arrived; the text says how.
    Hyper(String),
    /// The server answered with a status other than 200; the text is the
    /// body of its answer, trimmed.
    BadResponse(String),
    /// Something unexpected happened; the text says what.
    Custom(String),
    /// A request could not be made from the parameters given; the text says
    /// why.
    InvalidParams(String),
}

/// How request and response bodies are compressed.
#[derive(Debug, Clone, Copy, PartialEq, Eq, Structural)]
#[non_exhaustive]
pub enum Compression {
    /// Bodies travel as they are.
    Off,
}

impl Default for Compression {
    #[inline]
    fn default() -> (c: Self)
        ensures
            c == Compression::Off,
    {
        Compression::Off
    }
}

} // verus!
