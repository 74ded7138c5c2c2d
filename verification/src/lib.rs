//! Core logic of a single-file ad-hoc HTTP file server: deciding whether the
//! content to serve is a pre-existing file or must first be captured from the
//! input stream, generating the capture destination, and preparing the startup
//! banner rows. The HTTP transport, argument parsing and all file and stream
//! I/O live outside this crate and consume these functions on plain values.

pub mod banner;
pub mod input;
pub mod resolve;
pub mod signal;
