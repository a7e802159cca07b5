//! A minimal ledger-resident program: a pair of pure greeting entry points
//! and one durable counter record, read and committed through the host
//! environment's persistent key-value store.

pub mod contract;
pub mod host;
pub mod state;
