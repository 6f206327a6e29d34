//! A manager for floating sub-windows drawn inside one host surface.
//!
//! The library is a small message-passing system: nodes are addressed by
//! opaque identifiers, mutating commands carry single-use payloads, and the
//! manager alone owns the z-ordered stack of windows.
pub mod commands;
pub mod data;
pub mod decoration;
pub mod dialog;
pub mod host;
pub mod laws;
pub mod manager;
pub mod proxy;
