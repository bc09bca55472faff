//! An in-memory, versioned world state for an Ethereum-like virtual machine.
//!
//! The store holds the accounts of the current block, a snapshot of the
//! accounts written for every other block, the logs of each block and the
//! receipts of the transactions. It takes the changes of one block as one
//! batch and answers questions about the current accounts.
//!
//! - [`primitives`]: addresses, hashes and 256-bit words.
//! - [`keccak`]: the hash of an account's code.
//! - [`model`]: the world state as a mathematical value, and what a batch
//!   does to it.
//! - [`laws`]: what follows from the model.
//! - [`backend`]: the instructions of a batch and the interface of a store;
//!   [`backend::memory`] is the store.

pub mod backend;
pub mod keccak;
pub mod laws;
pub mod model;
pub mod primitives;
