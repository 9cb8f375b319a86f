//! Bridge relay commands.
//!
//! A cross-chain bridge relay observes transfer events on an external ledger,
//! turns each event into a typed bridge command, and submits each command as a
//! signed transaction against the local ledger. This crate holds the verified
//! core of that relay: the compact binary envelope that encodes and decodes
//! commands, and the pure decision logic of the relay loop — the fetch range,
//! the event-to-command mapping, and the aggregation of per-command submission
//! outcomes with partial-failure tolerance.

pub mod contract_method;
pub mod relay;
pub mod scale;
pub mod sender_amount;
