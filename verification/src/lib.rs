//! Transcript parsing and schema-coverage validation for line-delimited JSON
//! event logs, together with the input/output record types of the hook
//! protocol that consumes the parsed entries.
//!
//! The library is organised around a small JSON tree model ([`json::JsonValue`]):
//! one line of a transcript is parsed into that model, decoded into a typed
//! [`transcript::TranscriptEntry`], and optionally re-serialised and compared
//! against the raw tree to find wire fields the typed model silently drops.

pub mod color;
pub mod coverage;
pub mod decode;
pub mod describe;
pub mod encode;
pub mod hooks;
pub mod inputs;
pub mod json;
pub mod laws;
pub mod num;
pub mod parse;
pub mod roundtrip;
pub mod rust_files;
pub mod transcript;
