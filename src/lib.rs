//! Ephemeral post-quantum signing: generate a Dilithium2 keypair, sign a
//! message, check the signature against the fresh public key and report the
//! hex-encoded artifacts.

pub mod engine;
mod entropy;
pub mod hex_text;
pub mod scheme;
pub mod service;
