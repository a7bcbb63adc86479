//! The pieces of the hyper-based server variant that are the library's own logic.
pub mod error;
pub mod server;
