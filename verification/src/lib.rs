//! A client-side codec and session engine for IPMI v2.0 over RMCP+.
//!
//! The crate frames and parses RMCP / IPMI session packets bit-exactly,
//! wraps payloads in the AES-CBC-128 + HMAC-SHA256-128 envelope, and drives
//! the RAKP key exchange as a pure state machine: the caller owns the socket
//! and feeds datagrams in, the engine answers with the bytes to send next.
pub mod commands;
pub mod err;
pub mod helpers;
pub mod parser;
pub mod session;

pub use commands::command::Command;
pub use err::IPMIClientError;
pub use parser::ipmi_payload::NetFn;
pub use parser::ipmi_payload_response::CompletionCode;
pub use session::{Session, Step};
