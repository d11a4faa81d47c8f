//! Core pieces of a nostr client: the parser of its command line, and a
//! persistent cache of the MIME type served at a URL, filled lazily by
//! header-only probes.
//!
//! Nothing here reads a clock, a file or a socket. Where the outside world
//! decides, the caller does the work and hands the outcome in.

pub mod args;
pub mod error;
pub mod text;
pub mod urls;

pub use error::Error;
