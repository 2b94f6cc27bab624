//! The storage adapter between a Merkle-Patricia trie and a durable key-value
//! engine such as RocksDB.
//!
//! A trie keeps its nodes in a store through four operations: `get`,
//! `insert`, `contains` and `remove`. Each of them is one request to the
//! engine and one reply to the trie. The engine and its handle stay with the
//! caller; this library decides the replies and states what they amount to:
//!
//! - [`error`] is the one error kind, a wrapper for the engine's message;
//! - [`adapter`] turns an answer of the engine into the reply of an operation;
//! - [`store`] is the contract that the engine is assumed to keep, as a model;
//! - [`laws`] proves what the operations add up to over such a store.

pub mod adapter;
pub mod error;
pub mod laws;
pub mod store;
