//! Forwarding of receipt payloads to a network-attached thermal printer,
//! or simulation thereof.
//!
//! The library resolves printer connection settings from layered
//! configuration sources (environment snapshot, configuration file
//! contents, built-in defaults), decodes a base64 payload, and decides
//! what should be done with it: report a simulated print, or hand the
//! raw bytes to the caller for a single TCP write.  All I/O (reading
//! the environment and the file, opening the connection) is left to
//! the embedding application; the library works on plain values and
//! every decision in it is verified.

pub mod codec;
pub mod config;
pub mod dispatch;
pub mod json;
pub mod messages;
