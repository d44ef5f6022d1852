//! Remote-console (RCON) client for a legacy multiplayer game server.
//!
//! The server speaks a connectionless text protocol over UDP: every request
//! is one datagram holding a four-byte out-of-band marker followed by a
//! plaintext command, and every reply is one datagram holding the same
//! marker followed by the response text.  This crate holds the verified
//! core of a control-plane bridge around that protocol: command framing,
//! reply validation, the game-mode tag table, and the step-by-step
//! decisions of each administrative operation.  The UDP exchange itself,
//! being I/O, lives outside the library and hands the raw bytes in and out.

pub mod codec;
pub mod error;
pub mod gametype;
pub mod maps;
pub mod server;
