//! The obfuscated protocols offered by the core, and what they share.

pub mod aoquic;
pub mod common;
pub mod otls_ws;
