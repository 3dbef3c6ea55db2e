//! A small console-driven proof-of-work toy miner.
//!
//! Raw bytes arrive over a character transport; the console accumulates them
//! into lines, parses each line into a typed command, and dispatches the
//! command against a mining configuration. The `mine` command runs a
//! brute-force nonce search over a pluggable cryptographic digest until a
//! digest with the required number of leading zero bytes is found.

pub mod console;
pub mod mining;
pub mod msg;
pub mod text;
