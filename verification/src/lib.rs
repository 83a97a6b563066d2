//! Protocol logic for a GlobalProtect-style VPN login sequence.
//!
//! The crate covers the pure, security-sensitive part of the handshake: the
//! response classifier, the prelogin and portal-config parsers, the gateway
//! login parser with its positional token decoding, the token encoder with
//! single-pass percent encoding, a log redaction filter and the discovery
//! rules for helper executables. Network rounds themselves are left to the
//! caller; every function here works on plain values.

pub mod classify;
pub mod codec;
pub mod credential;
pub mod error;
pub mod gateway;
pub mod host;
pub mod paths;
pub mod portal;
pub mod redact;
pub mod strutil;
pub mod token;
pub mod xmlio;
