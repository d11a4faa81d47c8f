//! A cache from URL to MIME type.

pub mod cache;
pub mod laws;
pub mod mime;
pub mod mimes;
pub mod probe;
pub mod snapshot;
pub mod table;

pub use cache::UrlCache;
pub use mimes::UrlMimes;
