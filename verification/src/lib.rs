//! Core of a command-line client for a digital-signage backend: the
//! canonical transcoding between the on-disk manifest document and the
//! in-memory model, the status contract the four HTTP verbs share, and the
//! generic engine that renders JSON API responses as tables or pretty JSON.
//!
//! The network, the filesystem and the wire parsers live outside; the
//! library takes plain values in, hands plain values back, and states in
//! each contract exactly what it does with them.
pub mod errors;
pub mod format;
pub mod http;
pub mod json;
pub mod manifest;
pub mod playlist;
pub mod settings;
pub mod strutil;
pub mod table;
pub mod views;
