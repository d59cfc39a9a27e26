//! A verified core for a small command-line HTTP client.
//!
//! The crate models the client's logic as plain functions over plain values:
//! parsing `key=value` body tokens, building the JSON request body,
//! planning a GET or POST request from a command, and rendering a response
//! (status line, headers, and a MIME-aware body) as the text to print.
//! The network transport, argument handling and terminal I/O live outside
//! the library and exchange only plain values with it.

pub mod color;
pub mod error;
pub mod json;
pub mod kv;
pub mod render;
pub mod request;

pub use color::ColorMode;
pub use error::HttpieError;
pub use kv::KvPair;
