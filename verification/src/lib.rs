//! An authorization and shared-buffer protocol for a message-relay service
//! on a shared ledger: callers ask the service to write payload bytes into
//! byte buffers, and the service decides, per buffer, who may write and
//! under what payment or ownership conditions, enforcing those conditions
//! before any byte is copied.

pub mod account;
pub mod cpi;
pub mod error;
pub mod instruction;
pub mod lifecycle;
pub mod pda;
pub mod processor;
pub mod state;
