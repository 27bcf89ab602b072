//! Establish an authenticated remote session with bounded retry and execute
//! single commands over it, capturing their standard output.
//!
//! The crate verifies the two pieces with real failure semantics: the
//! session-establishment protocol ([`connect`]) — decode the key once, dial
//! with bounded retry within a time budget, then handshake and authenticate —
//! and the command-execution contract ([`exec`]) — open a channel, drain its
//! output to end-of-stream, and optionally decode the bytes as UTF-8 text.
//! The transport, socket and cryptography are capabilities a driver supplies;
//! the machines here decide, and the driver reports each outcome back.

pub mod connect;
pub mod errors;
pub mod exec;
pub mod retry;
