//! A verified client-side engine for the NNTP network news protocol
//! (RFC 3977 / RFC 4643).
//!
//! The crate covers the wire-protocol core: encoding typed commands into
//! wire lines, parsing raw byte responses (single-line and multi-line with
//! dot-stuffing undone), classifying three-digit status codes, and the
//! session state machine for capability negotiation, two-step
//! authentication, newsgroup selection, and shutdown. Transport I/O is left
//! to the embedding program, which reads and writes lines and hands the
//! bytes to this crate.

pub mod bytes;
pub mod client;
pub mod command;
pub mod error;
pub mod parser;
pub mod response;
pub mod response_code;
pub mod text;
pub mod types;
