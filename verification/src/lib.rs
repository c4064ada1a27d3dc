//! A real-time chat relay: a registry of live sessions and the hub that
//! interprets the envelope protocol and fans events out to every session.
//!
//! - `json` writes strings and lists of strings as JSON text.
//! - `envelope` holds the wire unit and its text form.
//! - `channel` is the outbound delivery channel of a session.
//! - `model` is the registry as plain values, with what each operation does to it.
//! - `registry` is the registry itself.
//! - `hub` is the protocol: what an accepted connection, a frame and a closed
//!   connection do to the registry, and what they send out.
//! - `laws` states what holds over whole runs.

pub mod channel;
pub mod envelope;
pub mod hub;
pub mod json;
pub mod laws;
pub mod model;
pub mod registry;
