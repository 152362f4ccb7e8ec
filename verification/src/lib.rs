//! Weather providers and the registry that keeps them.
//!
//! A provider is a named source of weather reports with an optional API key.
//! The registry keeps one provider per name and at most one default among
//! them. Everything here is pure: reading and writing the file behind a
//! registry and talking to the network are the caller's part.

pub mod api;
pub mod commands;
pub mod date;
pub mod error;
pub mod providers;
pub mod storage;
