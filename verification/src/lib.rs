//! A transparent TLS-routing proxy library.
//!
//! The library inspects the unencrypted ClientHello of an incoming TLS
//! connection, extracts the requested hostname from the Server Name
//! Indication (SNI) extension, validates it against an allowlist, and
//! drives a per-connection routing state machine that turns the hostname
//! into a resolved, connected, and relayed session.  It never terminates
//! or decrypts TLS: after the captured handshake bytes are replayed to the
//! backend, the byte streams are relayed verbatim.
//!
//! The I/O itself (sockets, DNS, the relay copies) is performed by the
//! embedding program; this crate holds the parser, the allowlist matcher,
//! and the session state machine, all verified.

pub mod allowlist;
pub mod hello;
pub mod router;
