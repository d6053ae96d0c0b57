//! Trusted core of a confidential contract engine: the key hierarchy, the
//! seed-exchange protocol, the contract host ABI with its gas accounting, and
//! the safety buffer that keeps unwinding possible when memory runs out.
//!
//! The library decides and checks; sealing, randomness, ciphers, the storage
//! service and the interpreter are collaborators whose answers are handed in
//! as plain values.

pub mod errors;
pub mod oom_handler;
pub mod memory;
pub mod address;
pub mod keys;
pub mod key_manager;
pub mod seed_exchange;
pub mod contract;
