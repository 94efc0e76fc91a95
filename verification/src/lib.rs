//! Adapters between two generations of the HTTP crates: messages and bodies
//! of `http` 0.2 on one side, those of `hyper` 1 on the other.

pub mod body;
pub mod error;
pub mod fields;
pub mod headers;
pub mod laws;
pub mod listener;
pub mod message;
pub mod service;
pub mod size_hint;
pub mod version;
