//! Verified core of a cross-chain message relay and token-streaming bridge.
//!
//! The library authenticates attested cross-chain messages, decodes their
//! opcode-tagged payloads, enforces per-sender sequence ordering, stores the
//! validated intent of each operation, and prepares exactly-once downstream
//! invocations signed by a derived program authority.

pub mod bytes;
pub mod errors;
pub mod ext;
pub mod handlers;
pub mod ledger;
pub mod payload;
pub mod pending;
pub mod portal;
pub mod record;
pub mod state;
pub mod streams;
pub mod vaa;
